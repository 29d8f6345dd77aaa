use timeline_render::compile::{
    build_audio_output, build_delays, build_trims, compile_graph, compile_tracks,
};
use timeline_render::error::RenderError;
use timeline_render::graph::{render_labels, render_nodes, FilterGraphNode, Label, Operation};
use timeline_render::invocation::synthesize;
use timeline_render::partition::{partition_tracks, Tracks};
use timeline_render::render::{generate_proxy, start_render};
use timeline_render::timeline::{RenderClip, TrackType};

fn clip(
    id: &str,
    source: &str,
    start_us: u64,
    duration_us: u64,
    track_type: TrackType,
) -> RenderClip {
    RenderClip::new(id.to_string(), source.to_string(), start_us, duration_us, track_type)
}

fn strings(items: &[&str]) -> Vec<String> {
    items.iter().map(|s| s.to_string()).collect()
}

fn render(clips: Vec<RenderClip>) -> Result<Vec<String>, RenderError> {
    start_render("out.mp4".to_string(), "libx264".to_string(), clips).map(|inv| inv.args)
}

fn operations(nodes: &[FilterGraphNode]) -> Vec<Operation> {
    nodes.iter().map(|n| n.operation).collect()
}

#[test]
fn empty_timeline_is_rejected() {
    let r = start_render("out.mp4".to_string(), "libx264".to_string(), Vec::new());
    assert!(matches!(r, Err(RenderError::EmptyTimeline)));
    assert_eq!(r.unwrap_err().message(), "Timeline is empty");
}

#[test]
fn clip_without_source_is_rejected_by_id() {
    let clips = vec![
        clip("clip1", "a.mp4", 0, 1_000_000, TrackType::Video),
        clip("clip7", "", 0, 1_000_000, TrackType::Video),
    ];
    let e = render(clips).unwrap_err();
    match &e {
        RenderError::MissingSource { clip_id } => assert_eq!(clip_id, "clip7"),
        other => panic!("{:?}", other),
    }
    assert_eq!(e.message(), "Clip clip7 has no source file");
    assert!(e.message().contains("clip7"));
}

#[test]
fn first_clip_without_source_is_the_one_reported() {
    let clips = vec![
        clip("a", "a.mp4", 0, 1_000_000, TrackType::Video),
        clip("b", "", 0, 1_000_000, TrackType::Audio),
        clip("c", "", 0, 1_000_000, TrackType::Video),
    ];
    match render(clips).unwrap_err() {
        RenderError::MissingSource { clip_id } => assert_eq!(clip_id, "b"),
        other => panic!("{:?}", other),
    }
}

#[test]
fn missing_source_is_reported_before_missing_video() {
    let clips = vec![clip("only", "", 0, 1_000_000, TrackType::Audio)];
    assert!(matches!(render(clips), Err(RenderError::MissingSource { .. })));
}

#[test]
fn timeline_without_video_is_rejected() {
    let clips = vec![
        clip("m1", "a.mp3", 0, 1_000_000, TrackType::Audio),
        clip("m2", "b.wav", 500_000, 1_000_000, TrackType::Audio),
    ];
    let e = render(clips).unwrap_err();
    assert!(matches!(e, RenderError::NoVideoTracks));
    assert_eq!(e.message(), "No video tracks found");
}

#[test]
fn two_video_clips_are_concatenated_and_mixed() {
    let clips = vec![
        clip("a", "a.mp4", 0, 5_000_000, TrackType::Video),
        clip("b", "b.mp4", 5_000_000, 3_000_000, TrackType::Video),
    ];
    let graph = compile_graph(&clips).unwrap();
    assert_eq!(
        operations(&graph.nodes),
        vec![
            Operation::Trim { duration_us: 5_000_000 },
            Operation::Trim { duration_us: 3_000_000 },
            Operation::Concat,
            Operation::Delay { duration_us: 5_000_000, delay_ms: 0 },
            Operation::Delay { duration_us: 3_000_000, delay_ms: 5000 },
            Operation::Mix,
        ]
    );
    assert_eq!(graph.nodes[2].inputs, vec![Label::Trimmed(0), Label::Trimmed(1)]);
    assert_eq!(graph.nodes[2].output, Label::MainVideo);
    assert_eq!(graph.nodes[5].inputs, vec![Label::EmbeddedAudio(0), Label::EmbeddedAudio(1)]);
    assert_eq!(graph.nodes[5].output, Label::MainAudio);
    assert_eq!(graph.video_output, Label::MainVideo);
    assert_eq!(graph.audio_output, Label::MainAudio);

    let expected_graph = "[0:v]trim=duration=5,setpts=PTS-STARTPTS[v0];\
[1:v]trim=duration=3,setpts=PTS-STARTPTS[v1];\
[v0][v1]concat=n=2:v=1:a=0[main_v];\
[0:a]atrim=duration=5,asetpts=PTS-STARTPTS,adelay=0|0[a_vid_0];\
[1:a]atrim=duration=3,asetpts=PTS-STARTPTS,adelay=5000|5000[a_vid_1];\
[a_vid_0][a_vid_1]amix=inputs=2:duration=first:dropout_transition=2[outa];";
    let expected = strings(&[
        "-i", "a.mp4", "-i", "b.mp4", "-filter_complex", expected_graph, "-map", "[main_v]",
        "-map", "[outa]", "-c:v", "libx264", "-c:a", "aac", "-y", "out.mp4",
    ]);
    assert_eq!(render(clips).unwrap(), expected);
}

#[test]
fn audio_clip_is_delayed_to_its_start_on_both_channels() {
    let clips = vec![
        clip("v", "v.mp4", 0, 4_000_000, TrackType::Video),
        clip("m", "m.mp3", 2_500_000, 1_500_000, TrackType::Audio),
    ];
    let graph = compile_graph(&clips).unwrap();
    let delay = &graph.nodes[3];
    assert_eq!(delay.inputs, vec![Label::SourceAudio(1)]);
    assert_eq!(delay.operation, Operation::Delay { duration_us: 1_500_000, delay_ms: 2500 });
    assert_eq!(delay.output, Label::ExternalAudio(1));
    assert_eq!(
        delay.render(),
        "[1:a]atrim=duration=1.5,asetpts=PTS-STARTPTS,adelay=2500|2500[a_ext_1];"
    );
}

#[test]
fn delay_is_the_start_in_milliseconds_rounded_down() {
    let clips = vec![
        clip("v", "v.mp4", 1_999, 1_000_000, TrackType::Video),
        clip("m", "m.mp3", 999, 1_000_000, TrackType::Audio),
        clip("n", "n.mp3", 1_000, 1_000_000, TrackType::Audio),
    ];
    let graph = compile_graph(&clips).unwrap();
    let delays: Vec<Operation> = graph.nodes[2..5].iter().map(|n| n.operation).collect();
    assert_eq!(
        delays,
        vec![
            Operation::Delay { duration_us: 1_000_000, delay_ms: 1 },
            Operation::Delay { duration_us: 1_000_000, delay_ms: 0 },
            Operation::Delay { duration_us: 1_000_000, delay_ms: 1 },
        ]
    );
}

#[test]
fn video_alone_is_mixed_not_silenced() {
    let clips = vec![clip("v", "v.mp4", 0, 4_000_000, TrackType::Video)];
    let graph = compile_graph(&clips).unwrap();
    assert_eq!(graph.nodes.len(), 4);
    let mix = &graph.nodes[3];
    assert_eq!(mix.operation, Operation::Mix);
    assert_eq!(mix.inputs, vec![Label::EmbeddedAudio(0)]);
    assert_eq!(
        graph.nodes[2].operation,
        Operation::Delay { duration_us: 4_000_000, delay_ms: 0 }
    );
    assert_eq!(mix.render(), "[a_vid_0]amix=inputs=1:duration=first:dropout_transition=2[outa];");
}

#[test]
fn no_audio_input_gives_silence() {
    let node = build_audio_output(Vec::new());
    assert_eq!(node.operation, Operation::Silence);
    assert!(node.inputs.is_empty());
    assert_eq!(node.output, Label::MainAudio);
    assert_eq!(node.render(), "anullsrc=channel_layout=stereo:sample_rate=44100[outa];");
}

#[test]
fn audio_inputs_are_mixed_in_the_order_given() {
    let node = build_audio_output(vec![Label::ExternalAudio(3), Label::EmbeddedAudio(1)]);
    assert_eq!(node.operation, Operation::Mix);
    assert_eq!(node.inputs, vec![Label::ExternalAudio(3), Label::EmbeddedAudio(1)]);
    assert_eq!(
        node.render(),
        "[a_ext_3][a_vid_1]amix=inputs=2:duration=first:dropout_transition=2[outa];"
    );
}

#[test]
fn tracks_are_ordered_by_start_and_ties_keep_input_order() {
    let clips = vec![
        clip("v0", "0.mp4", 7_000_000, 1, TrackType::Video),
        clip("a1", "1.mp3", 3_000_000, 1, TrackType::Audio),
        clip("v2", "2.mp4", 2_000_000, 1, TrackType::Video),
        clip("v3", "3.mp4", 7_000_000, 1, TrackType::Video),
        clip("a4", "4.mp3", 3_000_000, 1, TrackType::Audio),
        clip("v5", "5.mp4", 2_000_000, 1, TrackType::Video),
        clip("a6", "6.mp3", 0, 1, TrackType::Audio),
    ];
    let tracks = partition_tracks(&clips);
    assert_eq!(tracks.video, vec![2, 5, 0, 3]);
    assert_eq!(tracks.audio, vec![6, 1, 4]);
}

#[test]
fn inputs_keep_submission_order_while_the_graph_is_sorted() {
    let clips = vec![
        clip("late", "late.mp4", 5_000_000, 3_000_000, TrackType::Video),
        clip("music", "music.mp3", 1_000_000, 2_000_000, TrackType::Audio),
        clip("early", "early.mp4", 0, 5_000_000, TrackType::Video),
    ];
    let args = render(clips).unwrap();
    assert_eq!(args[..6], strings(&["-i", "late.mp4", "-i", "music.mp3", "-i", "early.mp4"])[..]);
    assert_eq!(
        args[7],
        "[2:v]trim=duration=5,setpts=PTS-STARTPTS[v2];\
[0:v]trim=duration=3,setpts=PTS-STARTPTS[v0];\
[v2][v0]concat=n=2:v=1:a=0[main_v];\
[2:a]atrim=duration=5,asetpts=PTS-STARTPTS,adelay=0|0[a_vid_2];\
[0:a]atrim=duration=3,asetpts=PTS-STARTPTS,adelay=5000|5000[a_vid_0];\
[1:a]atrim=duration=2,asetpts=PTS-STARTPTS,adelay=1000|1000[a_ext_1];\
[a_vid_2][a_vid_0][a_ext_1]amix=inputs=3:duration=first:dropout_transition=2[outa];"
    );
}

#[test]
fn compiling_twice_gives_the_same_invocation() {
    let make = || {
        vec![
            clip("b", "b.mp4", 4_000_000, 3_000_000, TrackType::Video),
            clip("m", "m.mp3", 4_000_000, 2_000_000, TrackType::Audio),
            clip("a", "a.mp4", 4_000_000, 5_000_000, TrackType::Video),
        ]
    };
    let first = start_render("o.mp4".to_string(), "h264_nvenc".to_string(), make()).unwrap();
    let second = start_render("o.mp4".to_string(), "h264_nvenc".to_string(), make()).unwrap();
    assert_eq!(first.args, second.args);
    assert_eq!(first.encoder, "h264_nvenc");
    assert_eq!(first.audio_codec, "aac");
    assert_eq!(first.output_path, "o.mp4");
    let g1 = compile_graph(&make()).unwrap();
    let g2 = compile_graph(&make()).unwrap();
    assert_eq!(operations(&g1.nodes), operations(&g2.nodes));
    for (x, y) in g1.nodes.iter().zip(g2.nodes.iter()) {
        assert_eq!(x.inputs, y.inputs);
        assert_eq!(x.output, y.output);
    }
}

#[test]
fn encoder_and_destination_pass_through_unchanged() {
    let clips = vec![clip("v", "v.mp4", 0, 1_000_000, TrackType::Video)];
    let inv = start_render("C:/out dir/final.mkv".to_string(), "not-a-codec".to_string(), clips)
        .unwrap();
    let n = inv.args.len();
    assert_eq!(
        inv.args[n - 10..],
        strings(&[
            "-map", "[main_v]", "-map", "[outa]", "-c:v", "not-a-codec", "-c:a", "aac", "-y",
            "C:/out dir/final.mkv",
        ])[..]
    );
    assert_eq!(inv.encoder, "not-a-codec");
    assert_eq!(inv.output_path, "C:/out dir/final.mkv");
}

#[test]
fn tracks_without_video_are_rejected_by_the_compiler() {
    let clips = vec![clip("m", "m.mp3", 0, 1_000_000, TrackType::Audio)];
    let tracks = Tracks { video: Vec::new(), audio: vec![0] };
    assert!(matches!(compile_tracks(&clips, &tracks), Err(RenderError::NoVideoTracks)));
    assert!(matches!(compile_graph(&clips), Err(RenderError::NoVideoTracks)));
}

#[test]
fn output_labels_of_a_graph_are_distinct() {
    let clips = vec![
        clip("a", "a.mp4", 0, 1_000_000, TrackType::Video),
        clip("b", "b.mp3", 0, 1_000_000, TrackType::Audio),
        clip("c", "c.mp4", 0, 1_000_000, TrackType::Video),
        clip("d", "d.mp3", 0, 1_000_000, TrackType::Audio),
    ];
    let graph = compile_graph(&clips).unwrap();
    assert_eq!(graph.nodes.len(), 2 * 2 + 2 + 2);
    for i in 0..graph.nodes.len() {
        for j in 0..i {
            assert_ne!(graph.nodes[i].output, graph.nodes[j].output);
        }
    }
}

#[test]
fn proxy_request_is_accepted() {
    assert_eq!(generate_proxy("in.mp4".to_string(), "proxy.mp4".to_string()), Ok(()));
}

#[test]
fn track_names_other_than_video_are_audio() {
    assert_eq!(TrackType::from_name("video"), TrackType::Video);
    assert_eq!(TrackType::from_name("audio"), TrackType::Audio);
    assert_eq!(TrackType::from_name("Video"), TrackType::Audio);
    assert_eq!(TrackType::from_name(""), TrackType::Audio);
}

#[test]
fn submitted_clip_without_a_valid_time_is_rejected() {
    let ok = RenderClip::submitted(
        "c1".to_string(),
        "a.mp4".to_string(),
        Some(2_500_000),
        Some(1_000_000),
        "video",
    )
    .unwrap();
    assert_eq!(ok.id, "c1");
    assert_eq!(ok.source, "a.mp4");
    assert_eq!(ok.start_us, 2_500_000);
    assert_eq!(ok.duration_us, 1_000_000);
    assert_eq!(ok.track_type, TrackType::Video);

    let bad_start =
        RenderClip::submitted("c2".to_string(), "a.mp4".to_string(), None, Some(1), "audio");
    match bad_start.unwrap_err() {
        RenderError::InvalidTime { clip_id } => assert_eq!(clip_id, "c2"),
        other => panic!("{:?}", other),
    }
    let bad_duration =
        RenderClip::submitted("c3".to_string(), "a.mp4".to_string(), Some(0), None, "video");
    let e = bad_duration.unwrap_err();
    assert!(matches!(e, RenderError::InvalidTime { .. }));
    assert_eq!(e.message(), "Clip c3 has an invalid start or duration");
}

#[test]
fn audio_only_clip_at_two_and_a_half_seconds_is_delayed_by_2500() {
    let clips = vec![clip("m", "m.mp3", 2_500_000, 3_000_000, TrackType::Audio)];
    let (nodes, labels) = build_delays(&clips, &vec![0]);
    assert_eq!(nodes.len(), 1);
    assert_eq!(nodes[0].operation, Operation::Delay { duration_us: 3_000_000, delay_ms: 2500 });
    assert_eq!(labels, vec![Label::ExternalAudio(0)]);
    assert_eq!(
        render_nodes(&nodes),
        "[0:a]atrim=duration=3,asetpts=PTS-STARTPTS,adelay=2500|2500[a_ext_0];"
    );
}

#[test]
fn trims_follow_the_order_given() {
    let clips = vec![
        clip("a", "a.mp4", 0, 1_500_000, TrackType::Video),
        clip("b", "b.mp4", 0, 250_000, TrackType::Video),
    ];
    let (nodes, labels) = build_trims(&clips, &vec![1, 0]);
    assert_eq!(labels, vec![Label::Trimmed(1), Label::Trimmed(0)]);
    assert_eq!(render_labels(&labels), "[v1][v0]");
    assert_eq!(
        render_nodes(&nodes),
        "[1:v]trim=duration=0.25,setpts=PTS-STARTPTS[v1];\
[0:v]trim=duration=1.5,setpts=PTS-STARTPTS[v0];"
    );
    assert_eq!(render_nodes(&Vec::new()), "");
    assert_eq!(render_labels(&Vec::new()), "");
}

#[test]
fn operations_are_written_with_their_parameters() {
    assert_eq!(
        Operation::Trim { duration_us: 4_000_000 }.render(1),
        "trim=duration=4,setpts=PTS-STARTPTS"
    );
    assert_eq!(
        Operation::Delay { duration_us: 500_000, delay_ms: 12 }.render(1),
        "atrim=duration=0.5,asetpts=PTS-STARTPTS,adelay=12|12"
    );
    assert_eq!(Operation::Concat.render(3), "concat=n=3:v=1:a=0");
    assert_eq!(Operation::Mix.render(12), "amix=inputs=12:duration=first:dropout_transition=2");
    assert_eq!(Operation::Silence.render(0), "anullsrc=channel_layout=stereo:sample_rate=44100");
}

#[test]
fn invocation_is_synthesized_from_a_compiled_graph() {
    let clips = vec![clip("v", "movie.mp4", 0, 2_000_000, TrackType::Video)];
    let tracks = partition_tracks(&clips);
    let graph = compile_tracks(&clips, &tracks).unwrap();
    let inv = synthesize(&clips, &graph, "h264_qsv".to_string(), "done.mp4".to_string());
    assert_eq!(
        inv.args,
        strings(&[
            "-i",
            "movie.mp4",
            "-filter_complex",
            "[0:v]trim=duration=2,setpts=PTS-STARTPTS[v0];\
[v0]concat=n=1:v=1:a=0[main_v];\
[0:a]atrim=duration=2,asetpts=PTS-STARTPTS,adelay=0|0[a_vid_0];\
[a_vid_0]amix=inputs=1:duration=first:dropout_transition=2[outa];",
            "-map",
            "[main_v]",
            "-map",
            "[outa]",
            "-c:v",
            "h264_qsv",
            "-c:a",
            "aac",
            "-y",
            "done.mp4",
        ])
    );
    assert_eq!(inv.audio_codec, "aac");
}

#[test]
fn every_node_input_is_a_source_or_an_earlier_result() {
    let clips = vec![
        clip("a", "a.mp4", 3_000_000, 1_000_000, TrackType::Video),
        clip("b", "b.mp3", 1_000_000, 1_000_000, TrackType::Audio),
        clip("c", "c.mp4", 0, 1_000_000, TrackType::Video),
    ];
    let graph = compile_graph(&clips).unwrap();
    for (x, node) in graph.nodes.iter().enumerate() {
        for input in &node.inputs {
            let source = match input {
                Label::SourceVideo(i) | Label::SourceAudio(i) => *i < clips.len(),
                _ => false,
            };
            let earlier = graph.nodes[..x].iter().any(|n| n.output == *input);
            assert!(source || earlier);
        }
        let result = node.output == graph.video_output || node.output == graph.audio_output;
        let later = graph.nodes[x + 1..].iter().any(|n| n.inputs.contains(&node.output));
        assert!(result || later);
    }
}
