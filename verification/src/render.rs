//! Accepts or rejects a render request, and plans the accepted one.

use vstd::prelude::*;
use crate::compile::{compile_graph, compiled_graph, has_track};
use crate::error::{Rejection, RenderError};
use crate::invocation::{InvocationModel, RenderInvocation, invocation_of, synthesize};
use crate::timeline::{ClipModel, RenderClip, TrackType, models};

verus! {

/// Clip `i` is the first of the timeline that names no source.
pub open spec fn is_first_unsourced(clips: Seq<ClipModel>, i: int) -> bool {
    &&& 0 <= i < clips.len()
    &&& clips[i].source.len() == 0
    &&& forall|j: int| 0 <= j < i ==> (#[trigger] clips[j]).source.len() > 0
}

/// Some clip of the timeline names no source.
pub open spec fn has_unsourced(clips: Seq<ClipModel>) -> bool {
    exists|i: int| 0 <= i < clips.len() && (#[trigger] clips[i]).source.len() == 0
}

/// Why the timeline is rejected, if it is: it is empty; or else a clip names
/// no source, the first such clip being reported; or else it holds no video
/// clip.
pub open spec fn verdict(clips: Seq<ClipModel>) -> Option<Rejection> {
    if clips.len() == 0 {
        Some(Rejection::EmptyTimeline)
    } else if has_unsourced(clips) {
        Some(
            Rejection::MissingSource {
                clip_id: clips[choose|i: int| is_first_unsourced(clips, i)].id,
            },
        )
    } else if !has_track(clips, TrackType::Video) {
        Some(Rejection::NoVideoTracks)
    } else {
        None
    }
}

/// The invocation that a timeline is rendered with.
pub open spec fn planned_invocation(
    clips: Seq<ClipModel>,
    encoder: Seq<char>,
    output_path: Seq<char>,
) -> InvocationModel {
    invocation_of(clips, compiled_graph(clips), encoder, output_path)
}

/// What becomes of a render request: the reason for which its timeline is
/// rejected, or else the invocation that renders it.
pub open spec fn outcome(
    clips: Seq<ClipModel>,
    encoder: Seq<char>,
    output_path: Seq<char>,
) -> Result<InvocationModel, Rejection> {
    match verdict(clips) {
        Some(rejection) => Err(rejection),
        None => Ok(planned_invocation(clips, encoder, output_path)),
    }
}

/// What a result of `start_render` holds.
pub open spec fn result_model(r: Result<RenderInvocation, RenderError>) -> Result<
    InvocationModel,
    Rejection,
> {
    match r {
        Ok(invocation) => Ok(invocation@),
        Err(e) => Err(e@),
    }
}

/// Checks a render request and plans it: the timeline is validated and
/// compiled, and the invocation of the engine is returned for the caller to
/// run. A rejected request returns the reason and nothing to run.
pub fn start_render(output_path: String, encoder: String, clips: Vec<RenderClip>) -> (r: Result<
    RenderInvocation,
    RenderError,
>)
    ensures
        result_model(r) == outcome(models(clips@), encoder@, output_path@),
{
    let ghost m = models(clips@);
    if clips.len() == 0 {
        return Err(RenderError::EmptyTimeline);
    }
    let mut i: usize = 0;
    while i < clips.len()
        invariant
            m == models(clips@),
            i <= clips.len(),
            forall|j: int| 0 <= j < i ==> (#[trigger] m[j]).source.len() > 0,
        decreases clips.len() - i,
    {
        if clips[i].source.as_str().is_empty() {
            proof {
                assert(is_first_unsourced(m, i as int));
                assert(m[i as int].source.len() == 0);
                let c = choose|c: int| is_first_unsourced(m, c);
                assert(c == i) by {
                    if c < i {
                        assert(m[c].source.len() > 0);
                    }
                    if i < c {
                        assert(m[i as int].source.len() > 0);
                    }
                }
            }
            return Err(RenderError::MissingSource { clip_id: clips[i].id.clone() });
        }
        i = i + 1;
    }
    match compile_graph(&clips) {
        Err(e) => Err(e),
        Ok(graph) => Ok(synthesize(&clips, &graph, encoder, output_path)),
    }
}

/// Accepts a request to make a smaller copy of `input` at `output`. No copy
/// is made yet: every request is accepted and nothing is written.
pub fn generate_proxy(input: String, output: String) -> (r: Result<(), String>)
    ensures
        r is Ok,
{
    Ok(())
}

/// A timeline is accepted exactly if it holds a clip, every clip names a
/// source, and some clip is video.
pub proof fn lemma_accepted_iff_valid(clips: Seq<ClipModel>)
    ensures
        verdict(clips) is None <==> clips.len() > 0 && !has_unsourced(clips) && has_track(
            clips,
            TrackType::Video,
        ),
{
}

/// A timeline without clips is rejected as empty, whatever else is asked.
pub proof fn lemma_empty_timeline_rejected(
    clips: Seq<ClipModel>,
    encoder: Seq<char>,
    output_path: Seq<char>,
)
    requires
        clips.len() == 0,
    ensures
        outcome(clips, encoder, output_path) == Err::<InvocationModel, Rejection>(
            Rejection::EmptyTimeline,
        ),
{
}

/// A timeline is rejected for the first of its clips that names no source,
/// and the rejection holds that clip's id.
pub proof fn lemma_unsourced_clip_rejected(
    clips: Seq<ClipModel>,
    encoder: Seq<char>,
    output_path: Seq<char>,
    i: int,
)
    requires
        is_first_unsourced(clips, i),
    ensures
        outcome(clips, encoder, output_path) == Err::<InvocationModel, Rejection>(
            Rejection::MissingSource { clip_id: clips[i].id },
        ),
{
    assert(clips[i].source.len() == 0);
    let c = choose|c: int| is_first_unsourced(clips, c);
    if c < i {
        assert(clips[c].source.len() > 0);
    }
    if i < c {
        assert(clips[i].source.len() > 0);
    }
}

/// A timeline that holds clips, each with a source, but no video clip is
/// rejected for want of a video track, also where it holds audio clips.
pub proof fn lemma_no_video_rejected(
    clips: Seq<ClipModel>,
    encoder: Seq<char>,
    output_path: Seq<char>,
)
    requires
        clips.len() > 0,
        !has_unsourced(clips),
        !has_track(clips, TrackType::Video),
    ensures
        outcome(clips, encoder, output_path) == Err::<InvocationModel, Rejection>(
            Rejection::NoVideoTracks,
        ),
{
}

/// The same request has the same outcome every time: two results that both
/// are outcomes of it hold the same rejection, or the same invocation with
/// the same arguments in the same order.
pub proof fn lemma_same_request_same_outcome(
    clips: Seq<ClipModel>,
    encoder: Seq<char>,
    output_path: Seq<char>,
    first: Result<InvocationModel, Rejection>,
    second: Result<InvocationModel, Rejection>,
)
    requires
        first == outcome(clips, encoder, output_path),
        second == outcome(clips, encoder, output_path),
    ensures
        first == second,
        first matches Ok(invocation) ==> second matches Ok(again) && invocation.args == again.args,
{
}

} // verus!
