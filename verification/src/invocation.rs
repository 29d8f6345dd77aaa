//! Turns a compiled graph into the argument list of the encoding engine.

use vstd::prelude::*;
use vstd::string::*;
use crate::compile::{FilterGraph, GraphModel};
use crate::graph::{graph_text, label_text, render_nodes};
use crate::timeline::{ClipModel, RenderClip, models};

verus! {

/// Everything that one run of the encoding engine is given.
#[derive(Debug)]
pub struct RenderInvocation {
    /// Where the result is written.
    pub output_path: String,
    /// The video codec, as the caller named it.
    pub encoder: String,
    /// The audio codec.
    pub audio_codec: String,
    /// The arguments of the engine, in order.
    pub args: Vec<String>,
}

/// What an invocation is, as mathematical values.
pub struct InvocationModel {
    pub output_path: Seq<char>,
    pub encoder: Seq<char>,
    pub audio_codec: Seq<char>,
    pub args: Seq<Seq<char>>,
}

/// The texts that a list of strings holds.
pub open spec fn texts(strings: Seq<String>) -> Seq<Seq<char>> {
    Seq::new(strings.len(), |i: int| strings[i]@)
}

impl View for RenderInvocation {
    type V = InvocationModel;

    open spec fn view(&self) -> InvocationModel {
        InvocationModel {
            output_path: self.output_path@,
            encoder: self.encoder@,
            audio_codec: self.audio_codec@,
            args: texts(self.args@),
        }
    }
}

/// The audio codec of every render.
pub open spec fn audio_codec() -> Seq<char> {
    "aac"@
}

/// The arguments that name the inputs: for each clip, in the order
/// submitted, the input flag and the clip's source.
pub open spec fn input_args(clips: Seq<ClipModel>) -> Seq<Seq<char>> {
    Seq::new(
        2 * clips.len(),
        |k: int|
            if k % 2 == 0 {
                "-i"@
            } else {
                clips[k / 2].source
            },
    )
}

/// The arguments behind the inputs: the graph, the two streams to write,
/// the codecs, and the destination, which may be overwritten.
pub open spec fn output_args(graph: GraphModel, encoder: Seq<char>, output_path: Seq<char>) -> Seq<
    Seq<char>,
> {
    seq![
        "-filter_complex"@,
        graph_text(graph.nodes),
        "-map"@,
        label_text(graph.video_output),
        "-map"@,
        label_text(graph.audio_output),
        "-c:v"@,
        encoder,
        "-c:a"@,
        audio_codec(),
        "-y"@,
        output_path,
    ]
}

/// The invocation that renders `graph` from `clips` with `encoder` into `output_path`.
pub open spec fn invocation_of(
    clips: Seq<ClipModel>,
    graph: GraphModel,
    encoder: Seq<char>,
    output_path: Seq<char>,
) -> InvocationModel {
    InvocationModel {
        output_path,
        encoder,
        audio_codec: audio_codec(),
        args: input_args(clips) + output_args(graph, encoder, output_path),
    }
}

/// Builds the invocation that renders `graph` from `clips` with `encoder`
/// into `output_path`. Nothing is run.
pub fn synthesize(
    clips: &Vec<RenderClip>,
    graph: &FilterGraph,
    encoder: String,
    output_path: String,
) -> (invocation: RenderInvocation)
    ensures
        invocation@ == invocation_of(models(clips@), graph@, encoder@, output_path@),
{
    let ghost m = models(clips@);
    let mut args: Vec<String> = Vec::new();
    let mut i: usize = 0;
    while i < clips.len()
        invariant
            m == models(clips@),
            i <= clips.len(),
            args.len() == 2 * i,
            forall|k: int| 0 <= k < 2 * i ==> (#[trigger] args@[k])@ == input_args(m)[k],
        decreases clips.len() - i,
    {
        args.push(String::from_str("-i"));
        args.push(clips[i].source.clone());
        i = i + 1;
    }
    let ghost inputs = args@;
    assert(texts(inputs) =~= input_args(m));
    args.push(String::from_str("-filter_complex"));
    args.push(render_nodes(&graph.nodes));
    args.push(String::from_str("-map"));
    args.push(graph.video_output.render());
    args.push(String::from_str("-map"));
    args.push(graph.audio_output.render());
    args.push(String::from_str("-c:v"));
    args.push(encoder.clone());
    args.push(String::from_str("-c:a"));
    args.push(String::from_str("aac"));
    args.push(String::from_str("-y"));
    args.push(output_path.clone());
    assert(texts(args@) =~= input_args(m) + output_args(graph@, encoder@, output_path@));
    RenderInvocation { output_path, encoder, audio_codec: String::from_str("aac"), args }
}

} // verus!
