//! The filter graph: its nodes, the labels that join them, and their text.

use vstd::prelude::*;
use vstd::string::*;
use crate::text::{decimal, decimal_text, seconds, seconds_text};

verus! {

/// The name of a stream in the graph. The number is the position of a clip
/// in the timeline, which is also the number of its input to the engine.
#[derive(Clone, Copy, Debug, PartialEq, Eq, Structural)]
pub enum Label {
    /// The video stream of an input.
    SourceVideo(usize),
    /// The audio stream of an input.
    SourceAudio(usize),
    /// A video clip cut to its duration.
    Trimmed(usize),
    /// The sound of a video clip, moved to the clip's start.
    EmbeddedAudio(usize),
    /// The sound of an audio clip, moved to the clip's start.
    ExternalAudio(usize),
    /// The whole video track.
    MainVideo,
    /// The whole audio track.
    MainAudio,
}

/// What a node does to its inputs. Durations are in microseconds.
#[derive(Clone, Copy, Debug, PartialEq, Eq, Structural)]
pub enum Operation {
    /// Cuts video to a duration and restarts its timestamps at zero.
    Trim { duration_us: u64 },
    /// Cuts audio to a duration, restarts its timestamps at zero, and delays
    /// every channel by a number of milliseconds.
    Delay { duration_us: u64, delay_ms: u64 },
    /// Joins its video inputs end to end, in the order given.
    Concat,
    /// Mixes its audio inputs; the result is as long as the first of them.
    Mix,
    /// Generates stereo silence at 44100 Hz.
    Silence,
}

/// One step of the graph.
#[derive(Debug)]
pub struct FilterGraphNode {
    pub inputs: Vec<Label>,
    pub operation: Operation,
    pub output: Label,
}

/// What a node is, as mathematical values.
pub struct NodeModel {
    pub inputs: Seq<Label>,
    pub operation: Operation,
    pub output: Label,
}

impl View for FilterGraphNode {
    type V = NodeModel;

    open spec fn view(&self) -> NodeModel {
        NodeModel { inputs: self.inputs@, operation: self.operation, output: self.output }
    }
}

/// The nodes that a list of nodes stands for.
pub open spec fn node_models(nodes: Seq<FilterGraphNode>) -> Seq<NodeModel> {
    Seq::new(nodes.len(), |i: int| nodes[i]@)
}

/// A label as the engine reads it, brackets included.
pub open spec fn label_text(label: Label) -> Seq<char> {
    match label {
        Label::SourceVideo(i) => "["@ + decimal(i as nat) + ":v]"@,
        Label::SourceAudio(i) => "["@ + decimal(i as nat) + ":a]"@,
        Label::Trimmed(i) => "[v"@ + decimal(i as nat) + "]"@,
        Label::EmbeddedAudio(i) => "[a_vid_"@ + decimal(i as nat) + "]"@,
        Label::ExternalAudio(i) => "[a_ext_"@ + decimal(i as nat) + "]"@,
        Label::MainVideo => "[main_v]"@,
        Label::MainAudio => "[outa]"@,
    }
}

/// The labels of a list, one behind the other.
pub open spec fn labels_text(labels: Seq<Label>) -> Seq<char>
    decreases labels.len(),
{
    if labels.len() == 0 {
        Seq::empty()
    } else {
        labels_text(labels.drop_last()) + label_text(labels.last())
    }
}

/// An operation on `inputs` streams as the engine reads it.
pub open spec fn operation_text(operation: Operation, inputs: nat) -> Seq<char> {
    match operation {
        Operation::Trim { duration_us } => "trim=duration="@ + seconds(duration_us as nat)
            + ",setpts=PTS-STARTPTS"@,
        Operation::Delay { duration_us, delay_ms } => "atrim=duration="@ + seconds(
            duration_us as nat,
        ) + ",asetpts=PTS-STARTPTS,adelay="@ + decimal(delay_ms as nat) + "|"@ + decimal(
            delay_ms as nat,
        ),
        Operation::Concat => "concat=n="@ + decimal(inputs) + ":v=1:a=0"@,
        Operation::Mix => "amix=inputs="@ + decimal(inputs)
            + ":duration=first:dropout_transition=2"@,
        Operation::Silence => "anullsrc=channel_layout=stereo:sample_rate=44100"@,
    }
}

/// A node as the engine reads it: its inputs, its operation, its output and
/// a semicolon.
pub open spec fn node_text(node: NodeModel) -> Seq<char> {
    labels_text(node.inputs) + operation_text(node.operation, node.inputs.len()) + label_text(
        node.output,
    ) + ";"@
}

/// The nodes of a graph as the engine reads them, one behind the other.
pub open spec fn graph_text(nodes: Seq<NodeModel>) -> Seq<char>
    decreases nodes.len(),
{
    if nodes.len() == 0 {
        Seq::empty()
    } else {
        graph_text(nodes.drop_last()) + node_text(nodes.last())
    }
}

impl Label {
    /// Writes the label as the engine reads it.
    pub fn render(&self) -> (r: String)
        ensures
            r@ == label_text(*self),
    {
        match *self {
            Label::SourceVideo(i) => {
                let mut r = String::from_str("[");
                r.append(decimal_text(i as u64).as_str());
                r.append(":v]");
                r
            },
            Label::SourceAudio(i) => {
                let mut r = String::from_str("[");
                r.append(decimal_text(i as u64).as_str());
                r.append(":a]");
                r
            },
            Label::Trimmed(i) => {
                let mut r = String::from_str("[v");
                r.append(decimal_text(i as u64).as_str());
                r.append("]");
                r
            },
            Label::EmbeddedAudio(i) => {
                let mut r = String::from_str("[a_vid_");
                r.append(decimal_text(i as u64).as_str());
                r.append("]");
                r
            },
            Label::ExternalAudio(i) => {
                let mut r = String::from_str("[a_ext_");
                r.append(decimal_text(i as u64).as_str());
                r.append("]");
                r
            },
            Label::MainVideo => String::from_str("[main_v]"),
            Label::MainAudio => String::from_str("[outa]"),
        }
    }
}

/// Writes the labels of a list, one behind the other.
pub fn render_labels(labels: &Vec<Label>) -> (r: String)
    ensures
        r@ == labels_text(labels@),
{
    let mut r = String::new();
    let mut i: usize = 0;
    while i < labels.len()
        invariant
            i <= labels.len(),
            r@ == labels_text(labels@.take(i as int)),
        decreases labels.len() - i,
    {
        let text = labels[i].render();
        r.append(text.as_str());
        proof {
            assert(labels@.take(i + 1).drop_last() == labels@.take(i as int));
        }
        i = i + 1;
    }
    proof {
        assert(labels@.take(i as int) == labels@);
    }
    r
}

impl Operation {
    /// Writes the operation, applied to `inputs` streams, as the engine reads it.
    pub fn render(&self, inputs: usize) -> (r: String)
        ensures
            r@ == operation_text(*self, inputs as nat),
    {
        match *self {
            Operation::Trim { duration_us } => {
                let mut r = String::from_str("trim=duration=");
                r.append(seconds_text(duration_us).as_str());
                r.append(",setpts=PTS-STARTPTS");
                r
            },
            Operation::Delay { duration_us, delay_ms } => {
                let delay = decimal_text(delay_ms);
                let mut r = String::from_str("atrim=duration=");
                r.append(seconds_text(duration_us).as_str());
                r.append(",asetpts=PTS-STARTPTS,adelay=");
                r.append(delay.as_str());
                r.append("|");
                r.append(delay.as_str());
                r
            },
            Operation::Concat => {
                let mut r = String::from_str("concat=n=");
                r.append(decimal_text(inputs as u64).as_str());
                r.append(":v=1:a=0");
                r
            },
            Operation::Mix => {
                let mut r = String::from_str("amix=inputs=");
                r.append(decimal_text(inputs as u64).as_str());
                r.append(":duration=first:dropout_transition=2");
                r
            },
            Operation::Silence => String::from_str(
                "anullsrc=channel_layout=stereo:sample_rate=44100",
            ),
        }
    }
}

impl FilterGraphNode {
    /// Writes the node as the engine reads it.
    pub fn render(&self) -> (r: String)
        ensures
            r@ == node_text(self@),
    {
        let mut r = render_labels(&self.inputs);
        r.append(self.operation.render(self.inputs.len()).as_str());
        r.append(self.output.render().as_str());
        r.append(";");
        r
    }
}

/// Writes the nodes of a graph as the engine reads them.
pub fn render_nodes(nodes: &Vec<FilterGraphNode>) -> (r: String)
    ensures
        r@ == graph_text(node_models(nodes@)),
{
    let ghost all = node_models(nodes@);
    let mut r = String::new();
    let mut i: usize = 0;
    while i < nodes.len()
        invariant
            all == node_models(nodes@),
            i <= nodes.len(),
            r@ == graph_text(all.take(i as int)),
        decreases nodes.len() - i,
    {
        let text = nodes[i].render();
        r.append(text.as_str());
        proof {
            assert(all.take(i + 1).drop_last() == all.take(i as int));
        }
        i = i + 1;
    }
    proof {
        assert(all.take(i as int) == all);
    }
    r
}

} // verus!
