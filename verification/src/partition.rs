//! Splits a timeline into its video and audio tracks, each in render order.

use vstd::prelude::*;
use crate::timeline::{ClipModel, RenderClip, TrackType, models};

verus! {

/// Clip `i` is rendered before clip `j`: it starts earlier, or at the same
/// time and was submitted first.
pub open spec fn precedes(clips: Seq<ClipModel>, i: int, j: int) -> bool {
    clips[i].start_us < clips[j].start_us || (clips[i].start_us == clips[j].start_us && i < j)
}

/// Every two entries of `order` stand in render order.
pub open spec fn increasing(clips: Seq<ClipModel>, order: Seq<usize>) -> bool {
    forall|a: int, b: int|
        0 <= a < b < order.len() ==> precedes(
            clips,
            #[trigger] order[a] as int,
            #[trigger] order[b] as int,
        )
}

/// `order` lists, in render order, the positions below `n` of the clips on `track`.
pub open spec fn orders_prefix(
    clips: Seq<ClipModel>,
    track: TrackType,
    n: int,
    order: Seq<usize>,
) -> bool {
    &&& forall|k: int|
        0 <= k < order.len() ==> (#[trigger] order[k]) < n && clips[order[k] as int].track_type
            == track
    &&& forall|i: int|
        0 <= i < n && (#[trigger] clips[i]).track_type == track ==> order.contains(i as usize)
    &&& increasing(clips, order)
}

/// `order` is the render order of `track`: the positions of all its clips,
/// by ascending start, clips with equal start in the order submitted.
pub open spec fn is_render_order(
    clips: Seq<ClipModel>,
    track: TrackType,
    order: Seq<usize>,
) -> bool {
    orders_prefix(clips, track, clips.len() as int, order)
}

/// The render order of `track`.
pub open spec fn render_order(clips: Seq<ClipModel>, track: TrackType) -> Seq<usize> {
    choose|order: Seq<usize>| is_render_order(clips, track, order)
}

/// The two tracks of a timeline, each as positions into it.
pub struct Tracks {
    pub video: Vec<usize>,
    pub audio: Vec<usize>,
}

/// Two arrangements in render order that hold the same positions are the
/// same arrangement.
proof fn lemma_increasing_unique(clips: Seq<ClipModel>, a: Seq<usize>, b: Seq<usize>)
    requires
        increasing(clips, a),
        increasing(clips, b),
        forall|x: usize| a.contains(x) <==> b.contains(x),
    ensures
        a == b,
    decreases a.len(),
{
    if a.len() == 0 {
        if b.len() > 0 {
            assert(b.contains(b[0]));
            assert(a.contains(b[0]));
        }
        assert(a =~= b);
    } else {
        let la = a.len() - 1;
        assert(a.contains(a[la]));
        assert(b.contains(a[la]));
        let lb = b.len() - 1;
        assert(b.contains(b[lb]));
        assert(a.contains(b[lb]));
        let ia = choose|i: int| 0 <= i < a.len() && a[i] == b[lb];
        let ib = choose|i: int| 0 <= i < b.len() && b[i] == a[la];
        assert(a[la] == b[lb]) by {
            if ia < la {
                assert(precedes(clips, a[ia] as int, a[la] as int));
            }
            if ib < lb {
                assert(precedes(clips, b[ib] as int, b[lb] as int));
            }
        }
        let a0 = a.drop_last();
        let b0 = b.drop_last();
        assert forall|x: usize| a0.contains(x) <==> b0.contains(x) by {
            if a0.contains(x) {
                let i = choose|i: int| 0 <= i < a0.len() && a0[i] == x;
                assert(a[i] == x);
                assert(precedes(clips, a[i] as int, a[la] as int));
                assert(a.contains(x));
                let j = choose|j: int| 0 <= j < b.len() && b[j] == x;
                assert(j < lb);
                assert(b0[j] == x);
            }
            if b0.contains(x) {
                let i = choose|i: int| 0 <= i < b0.len() && b0[i] == x;
                assert(b[i] == x);
                assert(precedes(clips, b[i] as int, b[lb] as int));
                assert(b.contains(x));
                let j = choose|j: int| 0 <= j < a.len() && a[j] == x;
                assert(j < la);
                assert(a0[j] == x);
            }
        }
        assert(increasing(clips, a0)) by {
            assert forall|p: int, q: int| 0 <= p < q < a0.len() implies precedes(
                clips,
                #[trigger] a0[p] as int,
                #[trigger] a0[q] as int,
            ) by {
                assert(a0[p] == a[p] && a0[q] == a[q]);
            }
        }
        assert(increasing(clips, b0)) by {
            assert forall|p: int, q: int| 0 <= p < q < b0.len() implies precedes(
                clips,
                #[trigger] b0[p] as int,
                #[trigger] b0[q] as int,
            ) by {
                assert(b0[p] == b[p] && b0[q] == b[q]);
            }
        }
        lemma_increasing_unique(clips, a0, b0);
        assert(a =~= a0.push(a[la]));
        assert(b =~= b0.push(b[lb]));
    }
}

/// Two render orders of one track hold the same positions.
proof fn lemma_same_positions(
    clips: Seq<ClipModel>,
    track: TrackType,
    a: Seq<usize>,
    b: Seq<usize>,
)
    requires
        is_render_order(clips, track, a),
        is_render_order(clips, track, b),
    ensures
        forall|x: usize| a.contains(x) <==> b.contains(x),
{
    assert forall|x: usize| a.contains(x) <==> b.contains(x) by {
        if a.contains(x) {
            let i = choose|i: int| 0 <= i < a.len() && a[i] == x;
            assert(clips[a[i] as int].track_type == track);
        }
        if b.contains(x) {
            let i = choose|i: int| 0 <= i < b.len() && b[i] == x;
            assert(clips[b[i] as int].track_type == track);
        }
    }
}

/// A track has one render order only.
pub proof fn lemma_render_order_unique(
    clips: Seq<ClipModel>,
    track: TrackType,
    a: Seq<usize>,
    b: Seq<usize>,
)
    requires
        is_render_order(clips, track, a),
        is_render_order(clips, track, b),
    ensures
        a == b,
        a == render_order(clips, track),
{
    lemma_same_positions(clips, track, a, b);
    lemma_increasing_unique(clips, a, b);
    let c = render_order(clips, track);
    lemma_same_positions(clips, track, a, c);
    lemma_increasing_unique(clips, a, c);
}

/// Putting position `n` into an arrangement of the positions below it, behind
/// every clip that starts no later and before every clip that starts later,
/// gives the arrangement of the positions up to `n`.
proof fn lemma_insert_keeps_order(
    clips: Seq<ClipModel>,
    track: TrackType,
    order: Seq<usize>,
    n: int,
    pos: int,
)
    requires
        0 <= n < clips.len(),
        n <= usize::MAX,
        clips[n].track_type == track,
        orders_prefix(clips, track, n, order),
        0 <= pos <= order.len(),
        forall|k: int|
            0 <= k < pos ==> clips[(#[trigger] order[k]) as int].start_us <= clips[n].start_us,
        forall|k: int|
            pos <= k < order.len() ==> clips[(#[trigger] order[k]) as int].start_us
                > clips[n].start_us,
    ensures
        orders_prefix(clips, track, n + 1, order.insert(pos, n as usize)),
{
    let next = order.insert(pos, n as usize);
    assert forall|k: int| 0 <= k < next.len() implies (#[trigger] next[k]) < n + 1
        && clips[next[k] as int].track_type == track by {
        if k < pos {
            assert(next[k] == order[k]);
        } else if k > pos {
            assert(next[k] == order[k - 1]);
        }
    }
    assert forall|i: int|
        0 <= i < n + 1 && (#[trigger] clips[i]).track_type == track implies next.contains(
        i as usize,
    ) by {
        if i == n {
            assert(next[pos] == n as usize);
        } else {
            assert(order.contains(i as usize));
            let k = choose|k: int| 0 <= k < order.len() && order[k] == i as usize;
            if k < pos {
                assert(next[k] == i as usize);
            } else {
                assert(next[k + 1] == i as usize);
            }
        }
    }
    assert forall|a: int, b: int| 0 <= a < b < next.len() implies precedes(
        clips,
        #[trigger] next[a] as int,
        #[trigger] next[b] as int,
    ) by {
        let oa = if a < pos { a } else { a - 1 };
        let ob = if b < pos { b } else { b - 1 };
        if a != pos {
            assert(next[a] == order[oa]);
        }
        if b != pos {
            assert(next[b] == order[ob]);
        }
        if a != pos && b != pos {
            assert(precedes(clips, order[oa] as int, order[ob] as int));
        }
    }
}

/// Finds where clip `n` goes in `order`: behind every clip that starts no
/// later than it, before every clip that starts later.
proof fn lemma_insertion_point(
    clips: Seq<ClipModel>,
    order: Seq<usize>,
    n: int,
    k: int,
) -> (pos: int)
    requires
        increasing(clips, order),
        0 <= k <= order.len(),
        forall|j: int|
            k <= j < order.len() ==> clips[(#[trigger] order[j]) as int].start_us
                > clips[n].start_us,
    ensures
        0 <= pos <= order.len(),
        forall|j: int|
            0 <= j < pos ==> clips[(#[trigger] order[j]) as int].start_us <= clips[n].start_us,
        forall|j: int|
            pos <= j < order.len() ==> clips[(#[trigger] order[j]) as int].start_us
                > clips[n].start_us,
    decreases k,
{
    if k == 0 {
        0
    } else if clips[order[k - 1] as int].start_us <= clips[n].start_us {
        assert forall|j: int| 0 <= j < k implies clips[(#[trigger] order[j]) as int].start_us
            <= clips[n].start_us by {
            if j < k - 1 {
                assert(precedes(clips, order[j] as int, order[k - 1] as int));
            }
        }
        k
    } else {
        lemma_insertion_point(clips, order, n, k - 1)
    }
}

/// The positions below `n` of the clips on a track can be put in render order.
proof fn lemma_order_exists(clips: Seq<ClipModel>, track: TrackType, n: int) -> (order: Seq<
    usize,
>)
    requires
        0 <= n <= clips.len(),
        clips.len() <= usize::MAX,
    ensures
        orders_prefix(clips, track, n, order),
    decreases n,
{
    if n == 0 {
        Seq::empty()
    } else {
        let prev = lemma_order_exists(clips, track, n - 1);
        if clips[n - 1].track_type == track {
            let pos = lemma_insertion_point(clips, prev, n - 1, prev.len() as int);
            lemma_insert_keeps_order(clips, track, prev, n - 1, pos);
            prev.insert(pos, (n - 1) as usize)
        } else {
            prev
        }
    }
}

/// Every track of a timeline has a render order. It holds the positions of
/// all clips of the track and no others; a clip that starts earlier comes
/// first, and of two clips that start together the one submitted first.
pub proof fn lemma_render_order(clips: Seq<ClipModel>, track: TrackType)
    requires
        clips.len() <= usize::MAX,
    ensures
        is_render_order(clips, track, render_order(clips, track)),
        forall|a: int, b: int|
            0 <= a < b < render_order(clips, track).len() ==> {
                let first = #[trigger] render_order(clips, track)[a] as int;
                let second = #[trigger] render_order(clips, track)[b] as int;
                &&& clips[first].start_us <= clips[second].start_us
                &&& clips[first].start_us == clips[second].start_us ==> first < second
            },
{
    let witness = lemma_order_exists(clips, track, clips.len() as int);
    assert(is_render_order(clips, track, witness));
    let order = render_order(clips, track);
    assert forall|a: int, b: int| 0 <= a < b < order.len() implies {
        let first = #[trigger] order[a] as int;
        let second = #[trigger] order[b] as int;
        &&& clips[first].start_us <= clips[second].start_us
        &&& clips[first].start_us == clips[second].start_us ==> first < second
    } by {
        assert(precedes(clips, order[a] as int, order[b] as int));
    }
}

/// Puts clip `index` into the render order of the clips before it.
fn place(clips: &Vec<RenderClip>, order: &mut Vec<usize>, index: usize)
    requires
        index < clips.len(),
        orders_prefix(models(clips@), clips[index as int].track_type, index as int, old(order)@),
    ensures
        orders_prefix(models(clips@), clips[index as int].track_type, index + 1, final(order)@),
{
    let ghost m = models(clips@);
    let ghost before = order@;
    let start: u64 = clips[index].start_us;
    let mut pos: usize = order.len();
    while pos > 0 && clips[order[pos - 1]].start_us > start
        invariant
            m == models(clips@),
            order@ == before,
            index < clips.len(),
            start == clips[index as int].start_us,
            pos <= order.len(),
            forall|k: int| 0 <= k < order.len() ==> (#[trigger] order@[k]) < index,
            forall|k: int|
                pos <= k < order.len() ==> m[(#[trigger] order@[k]) as int].start_us > start,
        decreases pos,
    {
        pos = pos - 1;
    }
    proof {
        assert forall|k: int| 0 <= k < pos implies m[(#[trigger] before[k]) as int].start_us
            <= start by {
            if k < pos - 1 {
                assert(precedes(m, before[k] as int, before[pos - 1] as int));
            }
        }
        let track = clips[index as int].track_type;
        lemma_insert_keeps_order(m, track, before, index as int, pos as int);
    }
    order.insert(pos, index);
}

/// Splits the timeline into its two tracks, each in render order: by
/// ascending start, clips with equal start in the order submitted.
pub fn partition_tracks(clips: &Vec<RenderClip>) -> (tracks: Tracks)
    ensures
        is_render_order(models(clips@), TrackType::Video, tracks.video@),
        is_render_order(models(clips@), TrackType::Audio, tracks.audio@),
        tracks.video@ == render_order(models(clips@), TrackType::Video),
        tracks.audio@ == render_order(models(clips@), TrackType::Audio),
{
    let ghost m = models(clips@);
    let mut video: Vec<usize> = Vec::new();
    let mut audio: Vec<usize> = Vec::new();
    let mut i: usize = 0;
    while i < clips.len()
        invariant
            m == models(clips@),
            i <= clips.len(),
            orders_prefix(m, TrackType::Video, i as int, video@),
            orders_prefix(m, TrackType::Audio, i as int, audio@),
        decreases clips.len() - i,
    {
        match clips[i].track_type {
            TrackType::Video => {
                place(clips, &mut video, i);
            },
            TrackType::Audio => {
                place(clips, &mut audio, i);
            },
        }
        i = i + 1;
    }
    proof {
        lemma_render_order_unique(m, TrackType::Video, video@, video@);
        lemma_render_order_unique(m, TrackType::Audio, audio@, audio@);
    }
    Tracks { video, audio }
}

} // verus!
