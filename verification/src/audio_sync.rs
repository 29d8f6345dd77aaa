//! Estimates how far the sound of several recordings is apart in time.

use vstd::prelude::*;

verus! {

/// The offset that every estimate gives, in microseconds.
pub const PLACEHOLDER_OFFSET_US: i64 = 1_250_000;

/// The confidence that every estimate gives, in thousandths.
pub const PLACEHOLDER_CONFIDENCE: u16 = 850;

/// An estimated offset between recordings.
#[derive(Clone, Copy, Debug, PartialEq, Eq, Structural)]
pub struct SyncResult {
    /// The offset in microseconds.
    pub offset_us: i64,
    /// How sure the estimate is, in thousandths: 0 to 1000.
    pub confidence_permille: u16,
}

/// Estimates the offset between the recordings at `paths`. The signals are
/// not compared yet: every request gets the same fixed estimate.
pub fn auto_align_clips(paths: Vec<String>) -> (r: Result<SyncResult, String>)
    ensures
        r == Ok::<SyncResult, String>(
            SyncResult { offset_us: 1_250_000, confidence_permille: 850 },
        ),
{
    Ok(SyncResult { offset_us: PLACEHOLDER_OFFSET_US, confidence_permille: PLACEHOLDER_CONFIDENCE })
}

} // verus!
