//! Describes a media file from its name and from what a probe measured.

use vstd::prelude::*;
use vstd::string::*;
use crate::invocation::texts;
use crate::text::{ends_with, has_suffix};

verus! {

/// The duration assumed for sound and video that could not be probed, in
/// microseconds.
pub const FALLBACK_DURATION_US: u64 = 10_000_000;

/// The duration assumed for a still image that could not be probed, in
/// microseconds.
pub const FALLBACK_IMAGE_DURATION_US: u64 = 5_000_000;

/// What is known of a media file.
#[derive(Clone, Debug)]
pub struct MediaMetadata {
    /// Length in microseconds.
    pub duration_us: u64,
    /// `audio`, `image` or `video`.
    pub format: String,
    /// Width and height, or a word where they are not known or there are none.
    pub resolution: String,
}

/// What the description of a media file is, as mathematical values.
pub struct MetadataModel {
    pub duration_us: nat,
    pub format: Seq<char>,
    pub resolution: Seq<char>,
}

impl View for MediaMetadata {
    type V = MetadataModel;

    open spec fn view(&self) -> MetadataModel {
        MetadataModel {
            duration_us: self.duration_us as nat,
            format: self.format@,
            resolution: self.resolution@,
        }
    }
}

/// The name is that of a sound file.
pub open spec fn names_audio(path: Seq<char>) -> bool {
    ends_with(path, ".mp3"@) || ends_with(path, ".wav"@) || ends_with(path, ".aac"@)
}

/// The name is that of a still image.
pub open spec fn names_image(path: Seq<char>) -> bool {
    ends_with(path, ".png"@) || ends_with(path, ".jpg"@) || ends_with(path, ".jpeg"@) || ends_with(
        path,
        ".gif"@,
    ) || ends_with(path, ".bmp"@) || ends_with(path, ".webp"@)
}

/// The kind of media that a name stands for: sound, a still image, or, for
/// every other name, video.
pub open spec fn format_for(path: Seq<char>) -> Seq<char> {
    if names_audio(path) {
        "audio"@
    } else if names_image(path) {
        "image"@
    } else {
        "video"@
    }
}

/// The description of the file named `path`, of which a probe measured the
/// duration `probed`, or which could not be probed.
pub open spec fn metadata_for(path: Seq<char>, probed: Option<u64>) -> MetadataModel {
    match probed {
        Some(duration_us) => MetadataModel {
            duration_us: duration_us as nat,
            format: format_for(path),
            resolution: if names_audio(path) {
                "N/A"@
            } else {
                "1920x1080"@
            },
        },
        None => MetadataModel {
            duration_us: if !names_audio(path) && names_image(path) {
                5_000_000
            } else {
                10_000_000
            },
            format: format_for(path),
            resolution: "unknown"@,
        },
    }
}

/// Whether the name is that of a sound file.
pub fn is_audio_path(path: &str) -> (r: bool)
    ensures
        r == names_audio(path@),
{
    has_suffix(path, ".mp3") || has_suffix(path, ".wav") || has_suffix(path, ".aac")
}

/// Whether the name is that of a still image.
pub fn is_image_path(path: &str) -> (r: bool)
    ensures
        r == names_image(path@),
{
    has_suffix(path, ".png") || has_suffix(path, ".jpg") || has_suffix(path, ".jpeg") || has_suffix(
        path,
        ".gif",
    ) || has_suffix(path, ".bmp") || has_suffix(path, ".webp")
}

/// Describes the file named `path`. `probed_duration_us` is the duration
/// that the probe measured, or nothing where the probe was not there or
/// failed: the description then holds fixed values, so that a missing probe
/// stops nobody.
pub fn get_media_metadata(path: String, probed_duration_us: Option<u64>) -> (r: Result<
    MediaMetadata,
    String,
>)
    ensures
        r matches Ok(metadata) && metadata@ == metadata_for(path@, probed_duration_us),
{
    let audio = is_audio_path(path.as_str());
    let image = !audio && is_image_path(path.as_str());
    let format = if audio {
        "audio"
    } else if image {
        "image"
    } else {
        "video"
    };
    match probed_duration_us {
        Some(duration_us) => Ok(
            MediaMetadata {
                duration_us,
                format: String::from_str(format),
                resolution: String::from_str(
                    if audio {
                        "N/A"
                    } else {
                        "1920x1080"
                    },
                ),
            },
        ),
        None => Ok(
            MediaMetadata {
                duration_us: if image {
                    FALLBACK_IMAGE_DURATION_US
                } else {
                    FALLBACK_DURATION_US
                },
                format: String::from_str(format),
                resolution: String::from_str("unknown"),
            },
        ),
    }
}

/// The arguments with which the probe prints the duration of `path` and
/// nothing else.
pub open spec fn probe_arguments(path: Seq<char>) -> Seq<Seq<char>> {
    seq![
        "-v"@,
        "error"@,
        "-show_entries"@,
        "format=duration"@,
        "-of"@,
        "default=noprint_wrappers=1:nokey=1"@,
        path,
    ]
}

/// Builds the arguments with which the probe prints the duration of `path`.
pub fn probe_args(path: &str) -> (r: Vec<String>)
    ensures
        texts(r@) == probe_arguments(path@),
{
    let mut r: Vec<String> = Vec::new();
    r.push(String::from_str("-v"));
    r.push(String::from_str("error"));
    r.push(String::from_str("-show_entries"));
    r.push(String::from_str("format=duration"));
    r.push(String::from_str("-of"));
    r.push(String::from_str("default=noprint_wrappers=1:nokey=1"));
    r.push(String::from_str(path));
    assert(texts(r@) =~= probe_arguments(path@));
    r
}

/// The places, relative to the working directory, where the probe is looked
/// for, in the order tried.
pub fn probe_candidates() -> (r: Vec<String>)
    ensures
        texts(r@) == seq![
            "src-tauri/bin/ffprobe.exe"@,
            "bin/ffprobe.exe"@,
            "../src-tauri/bin/ffprobe.exe"@,
        ],
{
    let mut r: Vec<String> = Vec::new();
    r.push(String::from_str("src-tauri/bin/ffprobe.exe"));
    r.push(String::from_str("bin/ffprobe.exe"));
    r.push(String::from_str("../src-tauri/bin/ffprobe.exe"));
    assert(texts(r@) =~= seq![
        "src-tauri/bin/ffprobe.exe"@,
        "bin/ffprobe.exe"@,
        "../src-tauri/bin/ffprobe.exe"@,
    ]);
    r
}

/// The name by which the probe is looked up where it is at none of the
/// candidate places.
pub fn probe_fallback() -> (r: &'static str)
    ensures
        r@ == "ffprobe"@,
{
    "ffprobe"
}

} // verus!
