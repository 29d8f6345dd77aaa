//! The timeline: the clips of one render request, in the order submitted.

use vstd::prelude::*;
use crate::error::{Rejection, RenderError};
use crate::text::same_text;

verus! {

/// The track that a clip is laid on.
#[derive(Clone, Copy, Debug, PartialEq, Eq, Structural)]
pub enum TrackType {
    Video,
    Audio,
}

/// The track that a submitted name stands for: `video` is the video track,
/// every other name the audio track.
pub open spec fn track_named(name: Seq<char>) -> TrackType {
    if name == "video"@ {
        TrackType::Video
    } else {
        TrackType::Audio
    }
}

impl TrackType {
    /// The track that a submitted name stands for.
    pub fn from_name(name: &str) -> (track: TrackType)
        ensures
            track == track_named(name@),
    {
        if same_text(name, "video") {
            TrackType::Video
        } else {
            TrackType::Audio
        }
    }
}

/// One element of the timeline. Times are whole microseconds, so that every
/// value is a valid position and any two can be ordered.
#[derive(Clone, Debug)]
pub struct RenderClip {
    /// Identifies the clip within one request.
    pub id: String,
    /// Path or URI of the media; an empty one is rejected.
    pub source: String,
    /// Position on the output timeline, in microseconds.
    pub start_us: u64,
    /// Length taken from the source, in microseconds.
    pub duration_us: u64,
    pub track_type: TrackType,
}

/// What a clip is, as mathematical values.
pub struct ClipModel {
    pub id: Seq<char>,
    pub source: Seq<char>,
    pub start_us: u64,
    pub duration_us: u64,
    pub track_type: TrackType,
}

impl View for RenderClip {
    type V = ClipModel;

    open spec fn view(&self) -> ClipModel {
        ClipModel {
            id: self.id@,
            source: self.source@,
            start_us: self.start_us,
            duration_us: self.duration_us,
            track_type: self.track_type,
        }
    }
}

/// The timeline that a list of clips stands for.
pub open spec fn models(clips: Seq<RenderClip>) -> Seq<ClipModel> {
    Seq::new(clips.len(), |i: int| clips[i]@)
}

impl RenderClip {
    /// A clip with the given fields.
    pub fn new(
        id: String,
        source: String,
        start_us: u64,
        duration_us: u64,
        track_type: TrackType,
    ) -> (clip: RenderClip)
        ensures
            clip@ == (ClipModel {
                id: id@,
                source: source@,
                start_us,
                duration_us,
                track_type,
            }),
    {
        RenderClip { id, source, start_us, duration_us, track_type }
    }

    /// A clip as it was submitted. A start or a duration that is no time is
    /// handed in as nothing, and the clip is then rejected under its id, so
    /// that every clip of a timeline can be ordered by its start.
    pub fn submitted(
        id: String,
        source: String,
        start_us: Option<u64>,
        duration_us: Option<u64>,
        track_name: &str,
    ) -> (r: Result<RenderClip, RenderError>)
        ensures
            r is Ok <==> start_us is Some && duration_us is Some,
            r matches Ok(clip) ==> clip@ == (ClipModel {
                id: id@,
                source: source@,
                start_us: start_us->0,
                duration_us: duration_us->0,
                track_type: track_named(track_name@),
            }),
            r matches Err(e) ==> e@ == (Rejection::InvalidTime { clip_id: id@ }),
    {
        match (start_us, duration_us) {
            (Some(start_us), Some(duration_us)) => Ok(
                RenderClip {
                    id,
                    source,
                    start_us,
                    duration_us,
                    track_type: TrackType::from_name(track_name),
                },
            ),
            _ => Err(RenderError::InvalidTime { clip_id: id }),
        }
    }
}

} // verus!
