//! Compiles the two tracks of a timeline into a filter graph.

use vstd::prelude::*;
use crate::error::{Rejection, RenderError};
use crate::graph::{FilterGraphNode, Label, NodeModel, Operation, node_models};
use crate::partition::{
    Tracks, is_render_order, lemma_render_order, lemma_render_order_unique, partition_tracks,
    precedes, render_order,
};
use crate::timeline::{ClipModel, RenderClip, TrackType, models};

verus! {

/// The delay, in whole milliseconds, that moves a stream to `start_us`
/// microseconds: the start in milliseconds, rounded down.
pub open spec fn delay_millis(start_us: u64) -> u64 {
    start_us / 1000
}

/// The node that cuts video clip `i` to its duration.
pub open spec fn trim_node(clips: Seq<ClipModel>, i: usize) -> NodeModel {
    NodeModel {
        inputs: seq![Label::SourceVideo(i)],
        operation: Operation::Trim { duration_us: clips[i as int].duration_us },
        output: Label::Trimmed(i),
    }
}

/// The label under which the sound of clip `i` enters the mix.
pub open spec fn audio_label(clips: Seq<ClipModel>, i: usize) -> Label {
    match clips[i as int].track_type {
        TrackType::Video => Label::EmbeddedAudio(i),
        TrackType::Audio => Label::ExternalAudio(i),
    }
}

/// The node that cuts the sound of clip `i` to its duration and moves it to
/// the clip's start.
pub open spec fn delay_node(clips: Seq<ClipModel>, i: usize) -> NodeModel {
    NodeModel {
        inputs: seq![Label::SourceAudio(i)],
        operation: Operation::Delay {
            duration_us: clips[i as int].duration_us,
            delay_ms: delay_millis(clips[i as int].start_us),
        },
        output: audio_label(clips, i),
    }
}

/// The trim nodes of the clips at `order`, in that order.
pub open spec fn trim_nodes(clips: Seq<ClipModel>, order: Seq<usize>) -> Seq<NodeModel> {
    Seq::new(order.len(), |k: int| trim_node(clips, order[k]))
}

/// The labels of the trimmed clips at `order`, in that order.
pub open spec fn trimmed_labels(order: Seq<usize>) -> Seq<Label> {
    Seq::new(order.len(), |k: int| Label::Trimmed(order[k]))
}

/// The delay nodes of the clips at `order`, in that order.
pub open spec fn delay_nodes(clips: Seq<ClipModel>, order: Seq<usize>) -> Seq<NodeModel> {
    Seq::new(order.len(), |k: int| delay_node(clips, order[k]))
}

/// The labels under which the sound of the clips at `order` enters the mix.
pub open spec fn audio_labels(clips: Seq<ClipModel>, order: Seq<usize>) -> Seq<Label> {
    Seq::new(order.len(), |k: int| audio_label(clips, order[k]))
}

/// The node that joins the trimmed clips into the video track.
pub open spec fn concat_node(inputs: Seq<Label>) -> NodeModel {
    NodeModel { inputs, operation: Operation::Concat, output: Label::MainVideo }
}

/// The node that gives the audio track: a mix of `inputs`, or, where there
/// is none, generated silence.
pub open spec fn audio_output_node(inputs: Seq<Label>) -> NodeModel {
    NodeModel {
        inputs,
        operation: if inputs.len() == 0 {
            Operation::Silence
        } else {
            Operation::Mix
        },
        output: Label::MainAudio,
    }
}

/// The nodes for a video track `video` and an audio track `audio`: a trim
/// for each video clip; their concatenation; a delay for the sound of each
/// clip, video clips first; and the mix of those.
pub open spec fn graph_nodes(
    clips: Seq<ClipModel>,
    video: Seq<usize>,
    audio: Seq<usize>,
) -> Seq<NodeModel> {
    trim_nodes(clips, video) + seq![concat_node(trimmed_labels(video))] + delay_nodes(
        clips,
        video + audio,
    ) + seq![audio_output_node(audio_labels(clips, video + audio))]
}

/// A compiled graph: its nodes, and the labels of its two results.
#[derive(Debug)]
pub struct FilterGraph {
    pub nodes: Vec<FilterGraphNode>,
    pub video_output: Label,
    pub audio_output: Label,
}

/// What a compiled graph is, as mathematical values.
pub struct GraphModel {
    pub nodes: Seq<NodeModel>,
    pub video_output: Label,
    pub audio_output: Label,
}

impl View for FilterGraph {
    type V = GraphModel;

    open spec fn view(&self) -> GraphModel {
        GraphModel {
            nodes: node_models(self.nodes@),
            video_output: self.video_output,
            audio_output: self.audio_output,
        }
    }
}

/// The graph for a video track `video` and an audio track `audio`.
pub open spec fn graph_of(
    clips: Seq<ClipModel>,
    video: Seq<usize>,
    audio: Seq<usize>,
) -> GraphModel {
    GraphModel {
        nodes: graph_nodes(clips, video, audio),
        video_output: Label::MainVideo,
        audio_output: Label::MainAudio,
    }
}

/// The graph that a timeline compiles to.
pub open spec fn compiled_graph(clips: Seq<ClipModel>) -> GraphModel {
    graph_of(clips, render_order(clips, TrackType::Video), render_order(clips, TrackType::Audio))
}

/// Some clip of the timeline lies on `track`.
pub open spec fn has_track(clips: Seq<ClipModel>, track: TrackType) -> bool {
    exists|i: int| 0 <= i < clips.len() && (#[trigger] clips[i]).track_type == track
}

/// Every entry of `order` is a position in a timeline of `len` clips.
pub open spec fn within(order: Seq<usize>, len: nat) -> bool {
    forall|k: int| 0 <= k < order.len() ==> (#[trigger] order[k]) < len
}

fn single(label: Label) -> (r: Vec<Label>)
    ensures
        r@ == seq![label],
{
    let mut r: Vec<Label> = Vec::new();
    r.push(label);
    r
}

/// Builds the trim nodes of the clips at `order`, and the labels they give.
pub fn build_trims(clips: &Vec<RenderClip>, order: &Vec<usize>) -> (r: (
    Vec<FilterGraphNode>,
    Vec<Label>,
))
    requires
        within(order@, clips@.len()),
    ensures
        node_models(r.0@) == trim_nodes(models(clips@), order@),
        r.1@ == trimmed_labels(order@),
{
    let ghost m = models(clips@);
    let mut nodes: Vec<FilterGraphNode> = Vec::new();
    let mut labels: Vec<Label> = Vec::new();
    let mut k: usize = 0;
    while k < order.len()
        invariant
            m == models(clips@),
            within(order@, clips@.len()),
            k <= order.len(),
            nodes.len() == k,
            labels.len() == k,
            forall|j: int| 0 <= j < k ==> (#[trigger] nodes@[j])@ == trim_node(m, order@[j]),
            forall|j: int| 0 <= j < k ==> #[trigger] labels@[j] == Label::Trimmed(order@[j]),
        decreases order.len() - k,
    {
        let i: usize = order[k];
        let node = FilterGraphNode {
            inputs: single(Label::SourceVideo(i)),
            operation: Operation::Trim { duration_us: clips[i].duration_us },
            output: Label::Trimmed(i),
        };
        assert(node@ == trim_node(m, i));
        nodes.push(node);
        labels.push(Label::Trimmed(i));
        k = k + 1;
    }
    assert(node_models(nodes@) =~= trim_nodes(m, order@));
    assert(labels@ =~= trimmed_labels(order@));
    (nodes, labels)
}

/// Builds the delay nodes of the clips at `order`, and the labels they give.
pub fn build_delays(clips: &Vec<RenderClip>, order: &Vec<usize>) -> (r: (
    Vec<FilterGraphNode>,
    Vec<Label>,
))
    requires
        within(order@, clips@.len()),
    ensures
        node_models(r.0@) == delay_nodes(models(clips@), order@),
        r.1@ == audio_labels(models(clips@), order@),
{
    let ghost m = models(clips@);
    let mut nodes: Vec<FilterGraphNode> = Vec::new();
    let mut labels: Vec<Label> = Vec::new();
    let mut k: usize = 0;
    while k < order.len()
        invariant
            m == models(clips@),
            within(order@, clips@.len()),
            k <= order.len(),
            nodes.len() == k,
            labels.len() == k,
            forall|j: int| 0 <= j < k ==> (#[trigger] nodes@[j])@ == delay_node(m, order@[j]),
            forall|j: int| 0 <= j < k ==> #[trigger] labels@[j] == audio_label(m, order@[j]),
        decreases order.len() - k,
    {
        let i: usize = order[k];
        let output = match clips[i].track_type {
            TrackType::Video => Label::EmbeddedAudio(i),
            TrackType::Audio => Label::ExternalAudio(i),
        };
        let node = FilterGraphNode {
            inputs: single(Label::SourceAudio(i)),
            operation: Operation::Delay {
                duration_us: clips[i].duration_us,
                delay_ms: clips[i].start_us / 1000,
            },
            output,
        };
        assert(node@ == delay_node(m, i));
        nodes.push(node);
        labels.push(output);
        k = k + 1;
    }
    assert(node_models(nodes@) =~= delay_nodes(m, order@));
    assert(labels@ =~= audio_labels(m, order@));
    (nodes, labels)
}

/// Builds the node that gives the audio track: a mix of `inputs`, or, where
/// there is none, generated silence.
pub fn build_audio_output(inputs: Vec<Label>) -> (node: FilterGraphNode)
    ensures
        node@ == audio_output_node(inputs@),
        inputs@.len() == 0 ==> node@.operation == Operation::Silence && node@.inputs.len() == 0,
        inputs@.len() > 0 ==> node@.operation == Operation::Mix && node@.inputs == inputs@,
        node@.output == Label::MainAudio,
{
    if inputs.len() == 0 {
        FilterGraphNode { inputs, operation: Operation::Silence, output: Label::MainAudio }
    } else {
        FilterGraphNode { inputs, operation: Operation::Mix, output: Label::MainAudio }
    }
}

/// Compiles the tracks of a timeline into its filter graph. A timeline
/// without a video clip is rejected.
pub fn compile_tracks(clips: &Vec<RenderClip>, tracks: &Tracks) -> (r: Result<
    FilterGraph,
    RenderError,
>)
    requires
        within(tracks.video@, clips@.len()),
        within(tracks.audio@, clips@.len()),
    ensures
        r is Err <==> tracks.video@.len() == 0,
        r matches Err(e) ==> e@ == Rejection::NoVideoTracks,
        r matches Ok(graph) ==> graph@ == graph_of(models(clips@), tracks.video@, tracks.audio@),
{
    if tracks.video.len() == 0 {
        return Err(RenderError::NoVideoTracks);
    }
    let ghost m = models(clips@);
    let (mut nodes, trimmed) = build_trims(clips, &tracks.video);
    nodes.push(
        FilterGraphNode { inputs: trimmed, operation: Operation::Concat, output: Label::MainVideo },
    );
    let (mut embedded, mut mixed) = build_delays(clips, &tracks.video);
    let (mut external, mut external_labels) = build_delays(clips, &tracks.audio);
    nodes.append(&mut embedded);
    nodes.append(&mut external);
    mixed.append(&mut external_labels);
    let output = build_audio_output(mixed);
    nodes.push(output);
    proof {
        let video = tracks.video@;
        let audio = tracks.audio@;
        assert(delay_nodes(m, video) + delay_nodes(m, audio) =~= delay_nodes(m, video + audio));
        assert(audio_labels(m, video) + audio_labels(m, audio) =~= audio_labels(m, video + audio));
        assert(node_models(nodes@) =~= graph_nodes(m, video, audio));
    }
    Ok(FilterGraph { nodes, video_output: Label::MainVideo, audio_output: Label::MainAudio })
}

/// A track's render order is empty exactly if no clip lies on the track.
pub proof fn lemma_order_empty_iff_no_clip(
    clips: Seq<ClipModel>,
    track: TrackType,
    order: Seq<usize>,
)
    requires
        is_render_order(clips, track, order),
    ensures
        order.len() == 0 <==> !has_track(clips, track),
        within(order, clips.len()),
{
    if order.len() > 0 {
        assert(clips[order[0] as int].track_type == track);
    }
    if has_track(clips, track) {
        let i = choose|i: int| 0 <= i < clips.len() && (#[trigger] clips[i]).track_type == track;
        assert(order.contains(i as usize));
    }
}

/// Compiles a timeline into its filter graph: partitions it into tracks and
/// compiles those. A timeline without a video clip is rejected.
pub fn compile_graph(clips: &Vec<RenderClip>) -> (r: Result<FilterGraph, RenderError>)
    ensures
        r is Err <==> !has_track(models(clips@), TrackType::Video),
        r matches Err(e) ==> e@ == Rejection::NoVideoTracks,
        r matches Ok(graph) ==> graph@ == compiled_graph(models(clips@)),
{
    let tracks = partition_tracks(clips);
    proof {
        lemma_order_empty_iff_no_clip(models(clips@), TrackType::Video, tracks.video@);
        lemma_order_empty_iff_no_clip(models(clips@), TrackType::Audio, tracks.audio@);
    }
    compile_tracks(clips, &tracks)
}

/// How the nodes of a graph are laid out: a trim for each video clip, in
/// track order; the concatenation of the trimmed clips, in the same order;
/// a delay for the sound of each clip, video track first, each track in its
/// order; last the audio output, which takes the delayed sounds in that order.
pub proof fn lemma_graph_layout(clips: Seq<ClipModel>, video: Seq<usize>, audio: Seq<usize>)
    ensures
        graph_nodes(clips, video, audio).len() == 2 * video.len() + audio.len() + 2,
        forall|k: int|
            0 <= k < video.len() ==> #[trigger] graph_nodes(clips, video, audio)[k] == trim_node(
                clips,
                video[k],
            ),
        graph_nodes(clips, video, audio)[video.len() as int] == concat_node(trimmed_labels(video)),
        forall|k: int|
            0 <= k < video.len() ==> #[trigger] graph_nodes(clips, video, audio)[video.len() + 1
                + k] == delay_node(clips, video[k]),
        forall|k: int|
            0 <= k < audio.len() ==> #[trigger] graph_nodes(clips, video, audio)[2 * video.len() + 1
                + k] == delay_node(clips, audio[k]),
        graph_nodes(clips, video, audio).last() == audio_output_node(
            audio_labels(clips, video + audio),
        ),
{
}

/// In the graph of a timeline the clips of each track appear by ascending
/// start, clips with equal start in the order submitted: this holds of the
/// trims, of the inputs of the concatenation, and of the delays of each track.
pub proof fn lemma_compiled_in_start_order(clips: Seq<ClipModel>)
    requires
        clips.len() <= usize::MAX,
    ensures
        ({
            let video = render_order(clips, TrackType::Video);
            let audio = render_order(clips, TrackType::Audio);
            let nodes = compiled_graph(clips).nodes;
            &&& is_render_order(clips, TrackType::Video, video)
            &&& is_render_order(clips, TrackType::Audio, audio)
            &&& forall|x: int, y: int|
                #![trigger nodes[x], nodes[y]]
                0 <= x < y < video.len() ==> {
                    &&& nodes[x] == trim_node(clips, video[x])
                    &&& nodes[y] == trim_node(clips, video[y])
                    &&& nodes[video.len() as int].inputs[x] == Label::Trimmed(video[x])
                    &&& nodes[video.len() as int].inputs[y] == Label::Trimmed(video[y])
                    &&& nodes[video.len() + 1 + x] == delay_node(clips, video[x])
                    &&& nodes[video.len() + 1 + y] == delay_node(clips, video[y])
                    &&& precedes(clips, video[x] as int, video[y] as int)
                }
            &&& forall|x: int, y: int|
                #![trigger nodes[x], nodes[y]]
                0 <= x < y < audio.len() ==> {
                    &&& nodes[2 * video.len() + 1 + x] == delay_node(clips, audio[x])
                    &&& nodes[2 * video.len() + 1 + y] == delay_node(clips, audio[y])
                    &&& precedes(clips, audio[x] as int, audio[y] as int)
                }
        }),
{
    lemma_render_order(clips, TrackType::Video);
    lemma_render_order(clips, TrackType::Audio);
    let video = render_order(clips, TrackType::Video);
    let audio = render_order(clips, TrackType::Audio);
    lemma_graph_layout(clips, video, audio);
}

/// Every clip's sound is delayed by the clip's start in whole milliseconds,
/// rounded down, and cut to the clip's duration.
pub proof fn lemma_delay_is_start_in_millis(
    clips: Seq<ClipModel>,
    video: Seq<usize>,
    audio: Seq<usize>,
    k: int,
)
    requires
        0 <= k < video.len() + audio.len(),
    ensures
        ({
            let i = (video + audio)[k];
            let node = graph_nodes(clips, video, audio)[video.len() + 1 + k];
            &&& node.inputs == seq![Label::SourceAudio(i)]
            &&& node.operation matches Operation::Delay { duration_us, delay_ms }
            &&& duration_us == clips[i as int].duration_us
            &&& delay_ms * 1000 <= clips[i as int].start_us < delay_ms * 1000 + 1000
        }),
{
}

/// The audio output of a graph with a video clip is a mix, not silence: it
/// takes the sound of every clip, video clips included.
pub proof fn lemma_audio_output_is_mix(clips: Seq<ClipModel>, video: Seq<usize>, audio: Seq<usize>)
    requires
        video.len() > 0,
    ensures
        graph_nodes(clips, video, audio).last().operation == Operation::Mix,
        graph_nodes(clips, video, audio).last().inputs == audio_labels(clips, video + audio),
        graph_nodes(clips, video, audio).last().inputs.len() == video.len() + audio.len(),
        graph_nodes(clips, video, audio).last().output == Label::MainAudio,
{
}

/// Without a sound to mix, the audio output is generated silence.
pub proof fn lemma_silence_without_inputs(inputs: Seq<Label>)
    ensures
        inputs.len() == 0 ==> audio_output_node(inputs).operation == Operation::Silence
            && audio_output_node(inputs).inputs.len() == 0,
        inputs.len() > 0 ==> audio_output_node(inputs).operation == Operation::Mix
            && audio_output_node(inputs).inputs == inputs,
{
}

/// A timeline has one graph: whichever way its tracks were put in render
/// order, the graph is the same.
pub proof fn lemma_graph_unique(
    clips: Seq<ClipModel>,
    video: Seq<usize>,
    audio: Seq<usize>,
    other_video: Seq<usize>,
    other_audio: Seq<usize>,
)
    requires
        is_render_order(clips, TrackType::Video, video),
        is_render_order(clips, TrackType::Audio, audio),
        is_render_order(clips, TrackType::Video, other_video),
        is_render_order(clips, TrackType::Audio, other_audio),
    ensures
        graph_of(clips, video, audio) == graph_of(clips, other_video, other_audio),
        graph_of(clips, video, audio) == compiled_graph(clips),
{
    lemma_render_order_unique(clips, TrackType::Video, video, other_video);
    lemma_render_order_unique(clips, TrackType::Audio, audio, other_audio);
}

/// No two nodes of a timeline's graph give the same label.
pub proof fn lemma_output_labels_distinct(
    clips: Seq<ClipModel>,
    video: Seq<usize>,
    audio: Seq<usize>,
)
    requires
        is_render_order(clips, TrackType::Video, video),
        is_render_order(clips, TrackType::Audio, audio),
    ensures
        forall|x: int, y: int|
            0 <= x < y < graph_nodes(clips, video, audio).len() ==> (#[trigger] graph_nodes(
                clips,
                video,
                audio,
            )[x]).output != (#[trigger] graph_nodes(clips, video, audio)[y]).output,
{
    let nodes = graph_nodes(clips, video, audio);
    let v = video.len() as int;
    let a = audio.len() as int;
    lemma_graph_layout(clips, video, audio);
    assert forall|x: int, y: int| 0 <= x < y < nodes.len() implies (#[trigger] nodes[x]).output != (
    #[trigger] nodes[y]).output by {
        if y < v {
            assert(precedes(clips, video[x] as int, video[y] as int));
        } else if x < v {
            if v < y <= 2 * v {
                let q = y - v - 1;
                assert(nodes[v + 1 + q] == delay_node(clips, video[q]));
            } else if 2 * v < y <= 2 * v + a {
                let q = y - 2 * v - 1;
                assert(nodes[2 * v + 1 + q] == delay_node(clips, audio[q]));
            }
        } else if x == v {
            if v < y <= 2 * v {
                let q = y - v - 1;
                assert(nodes[v + 1 + q] == delay_node(clips, video[q]));
            } else if 2 * v < y <= 2 * v + a {
                let q = y - 2 * v - 1;
                assert(nodes[2 * v + 1 + q] == delay_node(clips, audio[q]));
            }
        } else if x <= 2 * v {
            let p = x - v - 1;
            assert(nodes[v + 1 + p] == delay_node(clips, video[p]));
            assert(clips[video[p] as int].track_type == TrackType::Video);
            if y <= 2 * v {
                let q = y - v - 1;
                assert(nodes[v + 1 + q] == delay_node(clips, video[q]));
                assert(precedes(clips, video[p] as int, video[q] as int));
            } else if y <= 2 * v + a {
                let q = y - 2 * v - 1;
                assert(nodes[2 * v + 1 + q] == delay_node(clips, audio[q]));
                assert(clips[audio[q] as int].track_type == TrackType::Audio);
            }
        } else {
            let p = x - 2 * v - 1;
            assert(nodes[2 * v + 1 + p] == delay_node(clips, audio[p]));
            assert(clips[audio[p] as int].track_type == TrackType::Audio);
            if y <= 2 * v + a {
                let q = y - 2 * v - 1;
                assert(nodes[2 * v + 1 + q] == delay_node(clips, audio[q]));
                assert(clips[audio[q] as int].track_type == TrackType::Audio);
                assert(precedes(clips, audio[p] as int, audio[q] as int));
            }
        }
    }
}

/// `label` names a stream of one of the `len` inputs.
pub open spec fn is_source(label: Label, len: nat) -> bool {
    match label {
        Label::SourceVideo(i) => i < len,
        Label::SourceAudio(i) => i < len,
        _ => false,
    }
}

/// Input `p` of node `x` is fed: by a stream of one of the `len` inputs, or
/// by a node that stands before `x`.
pub open spec fn is_fed(nodes: Seq<NodeModel>, len: nat, x: int, p: int) -> bool {
    is_source(nodes[x].inputs[p], len) || exists|w: int|
        0 <= w < x && (#[trigger] nodes[w]).output == nodes[x].inputs[p]
}

/// The graph of a timeline is wired through: every input of every node is a
/// stream of a clip of the timeline or the result of an earlier node, and the
/// two results of the graph are those of the concatenation and of the audio
/// output.
pub proof fn lemma_graph_is_wired(clips: Seq<ClipModel>, video: Seq<usize>, audio: Seq<usize>)
    requires
        within(video, clips.len()),
        within(audio, clips.len()),
    ensures
        forall|x: int, p: int|
            0 <= x < graph_nodes(clips, video, audio).len() && 0 <= p < graph_nodes(
                clips,
                video,
                audio,
            )[x].inputs.len() ==> #[trigger] is_fed(
                graph_nodes(clips, video, audio),
                clips.len(),
                x,
                p,
            ),
        graph_nodes(clips, video, audio)[video.len() as int].output == graph_of(
            clips,
            video,
            audio,
        ).video_output,
        graph_nodes(clips, video, audio).last().output == graph_of(
            clips,
            video,
            audio,
        ).audio_output,
{
    let nodes = graph_nodes(clips, video, audio);
    let v = video.len() as int;
    let a = audio.len() as int;
    let len = clips.len();
    lemma_graph_layout(clips, video, audio);
    assert forall|x: int, p: int|
        0 <= x < nodes.len() && 0 <= p < nodes[x].inputs.len() implies #[trigger] is_fed(
        nodes,
        len,
        x,
        p,
    ) by {
        if x < v {
            assert(nodes[x] == trim_node(clips, video[x]));
        } else if x == v {
            assert(nodes[p] == trim_node(clips, video[p]));
            assert(nodes[p].output == nodes[x].inputs[p]);
        } else if x <= 2 * v {
            let q = x - v - 1;
            assert(nodes[v + 1 + q] == delay_node(clips, video[q]));
        } else if x <= 2 * v + a {
            let q = x - 2 * v - 1;
            assert(nodes[2 * v + 1 + q] == delay_node(clips, audio[q]));
        } else {
            assert(nodes[x] == nodes.last());
            if p < v {
                assert(nodes[v + 1 + p] == delay_node(clips, video[p]));
            } else {
                assert(nodes[2 * v + 1 + (p - v)] == delay_node(clips, audio[p - v]));
            }
            assert(nodes[v + 1 + p].output == nodes[x].inputs[p]);
        }
    }
}

/// Node `x` gives a result of the graph, or feeds a node that stands behind it.
pub open spec fn is_used(nodes: Seq<NodeModel>, x: int) -> bool {
    nodes[x].output == Label::MainVideo || nodes[x].output == Label::MainAudio || exists|
        y: int,
        p: int,
    |
        x < y < nodes.len() && 0 <= p < nodes[y].inputs.len() && (#[trigger] nodes[y].inputs[p])
            == nodes[x].output
}

/// No node of a graph is left over: what it gives is a result of the graph
/// or an input of a later node.
pub proof fn lemma_every_output_is_used(
    clips: Seq<ClipModel>,
    video: Seq<usize>,
    audio: Seq<usize>,
)
    ensures
        forall|x: int|
            0 <= x < graph_nodes(clips, video, audio).len() ==> #[trigger] is_used(
                graph_nodes(clips, video, audio),
                x,
            ),
{
    let nodes = graph_nodes(clips, video, audio);
    let v = video.len() as int;
    let a = audio.len() as int;
    let last = 2 * v + a + 1;
    lemma_graph_layout(clips, video, audio);
    assert forall|x: int| 0 <= x < nodes.len() implies #[trigger] is_used(nodes, x) by {
        if x < v {
            assert(nodes[x] == trim_node(clips, video[x]));
            assert(nodes[v].inputs[x] == nodes[x].output);
        } else if v < x < last {
            let q = x - v - 1;
            if q < v {
                assert(nodes[v + 1 + q] == delay_node(clips, video[q]));
            } else {
                assert(nodes[2 * v + 1 + (q - v)] == delay_node(clips, audio[q - v]));
            }
            assert(nodes[last] == nodes.last());
            assert(nodes[last].inputs[q] == nodes[x].output);
        } else if x == last {
            assert(nodes[x] == nodes.last());
        }
    }
}

} // verus!
