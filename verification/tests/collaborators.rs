use timeline_render::audio_sync::{auto_align_clips, SyncResult};
use timeline_render::capabilities::{assess, detect_gpu_vendor, detect_system_capabilities};
use timeline_render::media::{
    get_media_metadata, is_audio_path, is_image_path, probe_args, probe_candidates, probe_fallback,
};

const GIB: u64 = 1_073_741_824;

#[test]
fn vendor_follows_the_operating_system() {
    assert_eq!(detect_gpu_vendor("windows"), "Nvidia");
    assert_eq!(detect_gpu_vendor("macos"), "Apple");
    assert_eq!(detect_gpu_vendor("linux"), "Generic");
    assert_eq!(detect_gpu_vendor(""), "Generic");
    assert_eq!(detect_gpu_vendor("Windows"), "Generic");
}

#[test]
fn encoder_follows_the_vendor() {
    let encoder = |vendor: &str| assess(16, 32 * GIB, vendor.to_string()).recommended_encoder;
    assert_eq!(encoder("Nvidia"), "h264_nvenc");
    assert_eq!(encoder("AMD"), "h264_amf");
    assert_eq!(encoder("Intel"), "h264_qsv");
    assert_eq!(encoder("Apple"), "h264_videotoolbox");
    assert_eq!(encoder("Generic"), "libx264");
    assert_eq!(encoder("nvidia"), "libx264");
}

#[test]
fn proxies_follow_memory_and_cores() {
    let proxy = |cores: usize, bytes: u64, vendor: &str| {
        assess(cores, bytes, vendor.to_string()).proxy_recommended
    };
    assert!(!proxy(8, 16 * GIB, "Nvidia"));
    assert!(proxy(8, 16 * GIB - 1, "Nvidia"));
    assert!(proxy(7, 16 * GIB, "Nvidia"));
    assert!(proxy(8, 15 * GIB, "AMD"));
    assert!(!proxy(8, 64 * GIB, "Intel"));
    assert!(!proxy(8, 0, "Apple"));
    assert!(proxy(7, 64 * GIB, "Apple"));
    assert!(proxy(64, 64 * GIB, "Generic"));
}

#[test]
fn assessment_reports_whole_gibibytes() {
    let report = assess(12, 17 * GIB + 5, "AMD".to_string());
    assert_eq!(report.cpu_cores, 12);
    assert_eq!(report.ram_gb, 17);
    assert_eq!(report.gpu_vendor, "AMD");
    assert_eq!(assess(1, GIB - 1, "AMD".to_string()).ram_gb, 0);
    assert_eq!(assess(1, u64::MAX, "AMD".to_string()).ram_gb, 17_179_869_183);
}

#[test]
fn detected_capabilities_are_consistent() {
    let report = detect_system_capabilities("linux");
    assert_eq!(report.gpu_vendor, "Generic");
    assert_eq!(report.recommended_encoder, "libx264");
    assert!(report.proxy_recommended);
    let again = assess(report.cpu_cores, report.ram_gb * GIB, "Generic".to_string());
    assert_eq!(again.ram_gb, report.ram_gb);

    let mac = detect_system_capabilities("macos");
    assert_eq!(mac.recommended_encoder, "h264_videotoolbox");
    assert_eq!(mac.proxy_recommended, mac.cpu_cores < 8);
}

#[test]
fn media_kind_follows_the_extension() {
    assert!(is_audio_path("a/b/song.mp3"));
    assert!(is_audio_path("take.wav"));
    assert!(is_audio_path("voice.aac"));
    assert!(!is_audio_path("song.mp3.mp4"));
    assert!(!is_audio_path("song.ogg"));
    assert!(is_image_path("still.png"));
    assert!(is_image_path("still.jpeg"));
    assert!(!is_image_path("clip.mp4"));
}

#[test]
fn probed_media_is_described() {
    let video = get_media_metadata("clip.mp4".to_string(), Some(12_345_678)).unwrap();
    assert_eq!(video.duration_us, 12_345_678);
    assert_eq!(video.format, "video");
    assert_eq!(video.resolution, "1920x1080");
    let audio = get_media_metadata("song.mp3".to_string(), Some(0)).unwrap();
    assert_eq!(audio.duration_us, 0);
    assert_eq!(audio.format, "audio");
    assert_eq!(audio.resolution, "N/A");
}

#[test]
fn unprobed_media_gets_fixed_values() {
    let video = get_media_metadata("clip.mov".to_string(), None).unwrap();
    assert_eq!(video.duration_us, 10_000_000);
    assert_eq!(video.format, "video");
    assert_eq!(video.resolution, "unknown");
    let audio = get_media_metadata("take.wav".to_string(), None).unwrap();
    assert_eq!(audio.duration_us, 10_000_000);
    assert_eq!(audio.format, "audio");
    assert_eq!(audio.resolution, "unknown");
    let image = get_media_metadata("still.png".to_string(), None).unwrap();
    assert_eq!(image.duration_us, 5_000_000);
    assert_eq!(image.format, "image");
    assert_eq!(image.resolution, "unknown");
}

#[test]
fn probe_is_asked_for_the_duration_only() {
    assert_eq!(
        probe_args("my clip.mp4"),
        vec![
            "-v",
            "error",
            "-show_entries",
            "format=duration",
            "-of",
            "default=noprint_wrappers=1:nokey=1",
            "my clip.mp4",
        ]
    );
    assert_eq!(
        probe_candidates(),
        vec!["src-tauri/bin/ffprobe.exe", "bin/ffprobe.exe", "../src-tauri/bin/ffprobe.exe"]
    );
    assert_eq!(probe_fallback(), "ffprobe");
}

#[test]
fn alignment_gives_the_fixed_estimate() {
    let r = auto_align_clips(vec!["a.wav".to_string(), "b.wav".to_string()]).unwrap();
    assert_eq!(r, SyncResult { offset_us: 1_250_000, confidence_permille: 850 });
    assert_eq!(r.offset_us as f64 / 1e6, 1.25);
    assert!(r.confidence_permille <= 1000);
    assert_eq!(auto_align_clips(Vec::new()).unwrap(), r);
}
