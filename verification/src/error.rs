//! Why a render request is rejected before anything runs.

use vstd::prelude::*;
use vstd::string::*;

verus! {

/// A render request that fails validation.
#[derive(Clone, Debug)]
pub enum RenderError {
    /// The timeline holds no clip.
    EmptyTimeline,
    /// A clip names no source; `clip_id` is that clip's id.
    MissingSource { clip_id: String },
    /// The timeline holds no video clip.
    NoVideoTracks,
    /// A clip was submitted with a start or a duration that is no time:
    /// not a number, below zero, or without end. `clip_id` is that clip's id.
    InvalidTime { clip_id: String },
}

/// What a rejection is, as mathematical values.
pub enum Rejection {
    EmptyTimeline,
    MissingSource { clip_id: Seq<char> },
    NoVideoTracks,
    InvalidTime { clip_id: Seq<char> },
}

impl View for RenderError {
    type V = Rejection;

    open spec fn view(&self) -> Rejection {
        match *self {
            RenderError::EmptyTimeline => Rejection::EmptyTimeline,
            RenderError::MissingSource { clip_id } => Rejection::MissingSource {
                clip_id: clip_id@,
            },
            RenderError::NoVideoTracks => Rejection::NoVideoTracks,
            RenderError::InvalidTime { clip_id } => Rejection::InvalidTime { clip_id: clip_id@ },
        }
    }
}

/// The sentence that reports a rejection.
pub open spec fn rejection_text(rejection: Rejection) -> Seq<char> {
    match rejection {
        Rejection::EmptyTimeline => "Timeline is empty"@,
        Rejection::MissingSource { clip_id } => "Clip "@ + clip_id + " has no source file"@,
        Rejection::NoVideoTracks => "No video tracks found"@,
        Rejection::InvalidTime { clip_id } => "Clip "@ + clip_id
            + " has an invalid start or duration"@,
    }
}

impl RenderError {
    /// The sentence that reports this rejection.
    pub fn message(&self) -> (r: String)
        ensures
            r@ == rejection_text(self@),
    {
        match self {
            RenderError::EmptyTimeline => String::from_str("Timeline is empty"),
            RenderError::MissingSource { clip_id } => {
                let mut r = String::from_str("Clip ");
                r.append(clip_id.as_str());
                r.append(" has no source file");
                r
            },
            RenderError::NoVideoTracks => String::from_str("No video tracks found"),
            RenderError::InvalidTime { clip_id } => {
                let mut r = String::from_str("Clip ");
                r.append(clip_id.as_str());
                r.append(" has an invalid start or duration");
                r
            },
        }
    }
}

} // verus!
