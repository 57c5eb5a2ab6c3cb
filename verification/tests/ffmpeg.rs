use mediaforge_core::enums::{
    AudioCodec, AudioFilter, Container, DeinterlaceMethod, FpsMode, MovFlag, PixelFormat,
    PresetSpeed, Profile, ScaleAlgorithm, VideoCodec, VideoFilter,
};
use mediaforge_core::ffmpeg::{
    build_command, build_command_with_ffmpeg, choose_ffmpeg, command_to_string,
    command_to_string_with_ffmpeg,
};
use mediaforge_core::job::EncodeParams;

fn cmd_str(p: &EncodeParams) -> String {
    let cmd = build_command(p, "in.mp4", "out.mp4");
    cmd.args.join(" ")
}

#[test]
fn codec_h264() { let p = EncodeParams { video_codec: VideoCodec::H264, ..Default::default() }; assert!(cmd_str(&p).contains("libx264")); }

#[test]
fn codec_h265() { let p = EncodeParams { video_codec: VideoCodec::H265, ..Default::default() }; assert!(cmd_str(&p).contains("libx265")); }

#[test]
fn codec_vp9() { let p = EncodeParams { video_codec: VideoCodec::VP9, ..Default::default() }; assert!(cmd_str(&p).contains("libvpx-vp9")); }

#[test]
fn codec_av1() { let p = EncodeParams { video_codec: VideoCodec::AV1, ..Default::default() }; assert!(cmd_str(&p).contains("libaom-av1")); }

#[test]
fn codec_svtav1() { let p = EncodeParams { video_codec: VideoCodec::SVTAV1, ..Default::default() }; assert!(cmd_str(&p).contains("libsvtav1")); }

#[test]
fn codec_copy() { let p = EncodeParams { video_codec: VideoCodec::Copy, ..Default::default() }; assert!(cmd_str(&p).contains("-c:v")); assert!(cmd_str(&p).contains("copy")); }

#[test]
fn crf_present() { let p = EncodeParams { crf: Some(23), ..Default::default() }; assert!(cmd_str(&p).contains("-crf 23")); }

#[test]
fn crf_none() { let p = EncodeParams { crf: None, ..Default::default() }; assert!(!cmd_str(&p).contains("-crf")); }

#[test]
fn bitrate_present() { let p = EncodeParams { video_bitrate: Some(5000), ..Default::default() }; assert!(cmd_str(&p).contains("-b:v 5000k")); }

#[test]
fn crf_and_bitrate_both() { let p = EncodeParams { crf: Some(20), video_bitrate: Some(3000), ..Default::default() }; let s = cmd_str(&p); assert!(s.contains("-crf 20")); assert!(s.contains("-b:v 3000k")); }

#[test]
fn scale_in_vf() { let p = EncodeParams { width: 640, height: 360, ..Default::default() }; assert!(cmd_str(&p).contains("scale=640:360")); }

#[test]
fn deinterlace_yadif_in_vf() { let p = EncodeParams { deinterlace: Some(DeinterlaceMethod::Yadif), ..Default::default() }; assert!(cmd_str(&p).contains("yadif")); }

#[test]
fn deinterlace_bwdif_in_vf() { let p = EncodeParams { deinterlace: Some(DeinterlaceMethod::Bwdif), ..Default::default() }; assert!(cmd_str(&p).contains("bwdif")); }

#[test]
fn no_deinterlace_when_none() { let p = EncodeParams { deinterlace: None, ..Default::default() }; let s = cmd_str(&p); assert!(!s.contains("yadif")); assert!(!s.contains("bwdif")); }

#[test]
fn pix_fmt_yuv420p() { let p = EncodeParams { pixel_format: PixelFormat::Yuv420p, ..Default::default() }; assert!(cmd_str(&p).contains("yuv420p")); }

#[test]
fn pix_fmt_yuv444p() { let p = EncodeParams { pixel_format: PixelFormat::Yuv444p, ..Default::default() }; assert!(cmd_str(&p).contains("yuv444p")); }

#[test]
fn pix_fmt_nv12() { let p = EncodeParams { pixel_format: PixelFormat::Nv12, ..Default::default() }; assert!(cmd_str(&p).contains("nv12")); }

#[test]
fn pix_fmt_rgb24() { let p = EncodeParams { pixel_format: PixelFormat::Rgb24, ..Default::default() }; assert!(cmd_str(&p).contains("rgb24")); }

#[test]
fn preset_slow() { let p = EncodeParams { preset: PresetSpeed::Slow, ..Default::default() }; assert!(cmd_str(&p).contains("-preset slow")); }

#[test]
fn preset_ultrafast() { let p = EncodeParams { preset: PresetSpeed::Ultrafast, ..Default::default() }; assert!(cmd_str(&p).contains("-preset ultrafast")); }

#[test]
fn preset_superfast() { let p = EncodeParams { preset: PresetSpeed::Superfast, ..Default::default() }; assert!(cmd_str(&p).contains("-preset superfast")); }

#[test]
fn preset_veryslow() { let p = EncodeParams { preset: PresetSpeed::Veryslow, ..Default::default() }; assert!(cmd_str(&p).contains("-preset veryslow")); }

#[test]
fn profile_baseline() { let p = EncodeParams { profile: Some(Profile::Baseline), ..Default::default() }; assert!(cmd_str(&p).contains("-profile:v baseline")); }

#[test]
fn profile_main() { let p = EncodeParams { profile: Some(Profile::Main), ..Default::default() }; assert!(cmd_str(&p).contains("-profile:v main")); }

#[test]
fn profile_high() { let p = EncodeParams { profile: Some(Profile::High), ..Default::default() }; assert!(cmd_str(&p).contains("-profile:v high")); }

#[test]
fn profile_none() { let p = EncodeParams { profile: None, ..Default::default() }; assert!(!cmd_str(&p).contains("-profile:v")); }

#[test]
fn fps_fixed_30() { let p = EncodeParams { fps: FpsMode::Fixed(30), ..Default::default() }; assert!(cmd_str(&p).contains("-r 30")); }

#[test]
fn fps_fixed_60() { let p = EncodeParams { fps: FpsMode::Fixed(60), ..Default::default() }; assert!(cmd_str(&p).contains("-r 60")); }

#[test]
fn fps_same_no_r() { let p = EncodeParams { fps: FpsMode::SameAsSource, ..Default::default() }; assert!(!cmd_str(&p).contains(" -r ")); }

#[test]
fn scale_algorithm_bilinear() { let p = EncodeParams { scale_algorithm: ScaleAlgorithm::Bilinear, ..Default::default() }; assert!(cmd_str(&p).contains("bilinear")); }

#[test]
fn scale_algorithm_bicubic() { let p = EncodeParams { scale_algorithm: ScaleAlgorithm::Bicubic, ..Default::default() }; assert!(cmd_str(&p).contains("bicubic")); }

#[test]
fn threads_4() { let p = EncodeParams { threads: 4, ..Default::default() }; assert!(cmd_str(&p).contains("-threads 4")); }

#[test]
fn threads_0_auto() { let p = EncodeParams { threads: 0, ..Default::default() }; assert!(!cmd_str(&p).contains("-threads")); }

#[test]
fn trim_flags() { let p = EncodeParams { trim_start: Some("00:01:00".into()), trim_end: Some("00:05:00".into()), ..Default::default() }; let s = cmd_str(&p); assert!(s.contains("-ss 00:01:00")); assert!(s.contains("-to 00:05:00")); }

#[test]
fn trim_start_only() { let p = EncodeParams { trim_start: Some("00:00:10".into()), trim_end: None, ..Default::default() }; let s = cmd_str(&p); assert!(s.contains("-ss 00:00:10")); assert!(!s.contains("-to")); }

#[test]
fn trim_end_only() { let p = EncodeParams { trim_start: None, trim_end: Some("00:01:00".into()), ..Default::default() }; let s = cmd_str(&p); assert!(!s.contains("-ss")); assert!(s.contains("-to 00:01:00")); }

#[test]
fn audio_codec_aac() { let p = EncodeParams { audio_codec: AudioCodec::Aac, ..Default::default() }; assert!(cmd_str(&p).contains("-c:a aac")); }

#[test]
fn audio_codec_mp3() { let p = EncodeParams { audio_codec: AudioCodec::Mp3, ..Default::default() }; assert!(cmd_str(&p).contains("-c:a libmp3lame")); }

#[test]
fn audio_codec_opus() { let p = EncodeParams { audio_codec: AudioCodec::Opus, ..Default::default() }; assert!(cmd_str(&p).contains("libopus")); }

#[test]
fn audio_codec_vorbis() { let p = EncodeParams { audio_codec: AudioCodec::Vorbis, ..Default::default() }; assert!(cmd_str(&p).contains("libvorbis")); }

#[test]
fn audio_codec_flac() { let p = EncodeParams { audio_codec: AudioCodec::Flac, ..Default::default() }; assert!(cmd_str(&p).contains("-c:a flac")); }

#[test]
fn audio_codec_copy() { let p = EncodeParams { audio_codec: AudioCodec::Copy, ..Default::default() }; assert!(cmd_str(&p).contains("-c:a copy")); }

#[test]
fn audio_bitrate_192() { let p = EncodeParams { audio_bitrate: 192, ..Default::default() }; assert!(cmd_str(&p).contains("-b:a 192k")); }

#[test]
fn audio_channels() { let p = EncodeParams { audio_channels: 2, ..Default::default() }; assert!(cmd_str(&p).contains("-ac 2")); }

#[test]
fn audio_channels_1() { let p = EncodeParams { audio_channels: 1, ..Default::default() }; assert!(cmd_str(&p).contains("-ac 1")); }

#[test]
fn sample_rate_48k() { let p = EncodeParams { sample_rate: 48000, ..Default::default() }; assert!(cmd_str(&p).contains("-ar 48000")); }

#[test]
fn sample_rate_44100() { let p = EncodeParams { sample_rate: 44100, ..Default::default() }; assert!(cmd_str(&p).contains("-ar 44100")); }

#[test]
fn movflags_faststart() { let p = EncodeParams { movflags: vec![MovFlag::FastStart], ..Default::default() }; assert!(cmd_str(&p).contains("-movflags faststart")); }

#[test]
fn movflags_both() { let p = EncodeParams { movflags: vec![MovFlag::FastStart, MovFlag::FragKeyframe], ..Default::default() }; let s = cmd_str(&p); assert!(s.contains("faststart")); assert!(s.contains("frag_keyframe")); }

#[test]
fn movflags_empty() { let p = EncodeParams { movflags: vec![], ..Default::default() }; assert!(!cmd_str(&p).contains("-movflags")); }

#[test]
fn metadata_present() { let mut p = EncodeParams::default(); p.insert_metadata("title", "Test"); assert!(cmd_str(&p).contains("-metadata title=Test")); }

#[test]
fn metadata_multiple_keys() { let mut p = EncodeParams::default(); p.insert_metadata("title", "Test"); p.insert_metadata("artist", "Artist"); let s = cmd_str(&p); assert!(s.contains("-metadata title=Test")); assert!(s.contains("-metadata artist=Artist")); }

#[test]
fn container_mp4_output() { let p = EncodeParams { container: Container::Mp4, ..Default::default() }; assert!(cmd_str(&p).ends_with("out.mp4")); }

#[test]
fn container_webm_present() { let p = EncodeParams { container: Container::Webm, ..Default::default() }; let s = cmd_str(&p); assert!(s.ends_with("out.mp4")); }

#[test]
fn max_bitrate_and_bufsize() { let p = EncodeParams { max_bitrate: Some(8000), bufsize: Some(16000), ..Default::default() }; let s = cmd_str(&p); assert!(s.contains("-maxrate 8000k")); assert!(s.contains("-bufsize 16000k")); }

#[test]
fn max_bitrate_none() { let p = EncodeParams { max_bitrate: None, ..Default::default() }; assert!(!cmd_str(&p).contains("-maxrate")); }

#[test]
fn bufsize_none() { let p = EncodeParams { bufsize: None, ..Default::default() }; assert!(!cmd_str(&p).contains("-bufsize")); }

#[test]
fn extra_args_present() { let p = EncodeParams { extra_args: vec!["-an".into()], ..Default::default() }; assert!(cmd_str(&p).contains("-an")); }

#[test]
fn video_filter_hflip() { let p = EncodeParams { video_filters: vec![VideoFilter::HFlip], ..Default::default() }; assert!(cmd_str(&p).contains("hflip")); }

#[test]
fn video_filter_vflip() { let p = EncodeParams { video_filters: vec![VideoFilter::VFlip], ..Default::default() }; assert!(cmd_str(&p).contains("vflip")); }

#[test]
fn video_filter_rotate_90() { let p = EncodeParams { video_filters: vec![VideoFilter::Rotate(90)], ..Default::default() }; assert!(cmd_str(&p).contains("rotate=")); }

#[test]
fn video_filter_denoise() { let p = EncodeParams { video_filters: vec![VideoFilter::Denoise], ..Default::default() }; assert!(cmd_str(&p).contains("hqdn3d")); }

#[test]
fn video_filter_grayscale() { let p = EncodeParams { video_filters: vec![VideoFilter::Grayscale], ..Default::default() }; assert!(cmd_str(&p).contains("format=gray")); }

#[test]
fn video_filters_multiple() { let p = EncodeParams { video_filters: vec![VideoFilter::HFlip, VideoFilter::Denoise], ..Default::default() }; let s = cmd_str(&p); assert!(s.contains("hflip")); assert!(s.contains("hqdn3d")); }

#[test]
fn no_video_filters_when_empty() { let p = EncodeParams { video_filters: vec![], deinterlace: None, ..Default::default() }; let s = cmd_str(&p); assert!(s.contains("scale=")); assert!(!s.contains("hflip")); }

#[test]
fn audio_filter_volume() { let p = EncodeParams { audio_filters: vec![AudioFilter::Volume(200)], ..Default::default() }; assert!(cmd_str(&p).contains("volume=2.00")); }

#[test]
fn audio_filter_loudnorm() { let p = EncodeParams { audio_filters: vec![AudioFilter::Loudnorm], ..Default::default() }; assert!(cmd_str(&p).contains("loudnorm")); }

#[test]
fn audio_filter_highpass() { let p = EncodeParams { audio_filters: vec![AudioFilter::Highpass(100)], ..Default::default() }; assert!(cmd_str(&p).contains("highpass=f=100")); }

#[test]
fn audio_filter_lowpass() { let p = EncodeParams { audio_filters: vec![AudioFilter::Lowpass(3000)], ..Default::default() }; assert!(cmd_str(&p).contains("lowpass=f=3000")); }

#[test]
fn audio_filters_multiple() { let p = EncodeParams { audio_filters: vec![AudioFilter::Volume(200), AudioFilter::Loudnorm], ..Default::default() }; let s = cmd_str(&p); assert!(s.contains("volume=2.00")); assert!(s.contains("loudnorm")); }

#[test]
fn no_audio_filters_when_empty() { let p = EncodeParams { audio_filters: vec![], ..Default::default() }; assert!(!cmd_str(&p).contains("-af")); }

#[test]
fn no_overwrite_flag() { let p = EncodeParams::default(); assert!(cmd_str(&p).contains("-y")); }

#[test]
fn progress_pipe_stderr() { let p = EncodeParams::default(); assert!(cmd_str(&p).contains("-progress pipe:2")); }

#[test]
fn command_to_string_format() { let p = EncodeParams::default(); let s = command_to_string(&p, "in.mp4", "out.mp4"); assert!(s.starts_with("ffmpeg")); assert!(s.contains("-i")); }

#[test]
fn ffmpeg_path_custom_in_command_string() { let s = command_to_string_with_ffmpeg(&EncodeParams::default(), "in.mp4", "out.mp4", Some("/custom/ffmpeg")); assert!(s.starts_with("/custom/ffmpeg")); }



#[test]
fn gif_no_video_codec() { let p = EncodeParams { container: Container::Gif, fps: FpsMode::Fixed(10), width: 480, height: 270, ..Default::default() }; let s = cmd_str(&p); assert!(!s.contains("-c:v"), "GIF: {s}"); assert!(s.contains("palettegen")); assert!(!s.contains("-c:a")); }

#[test]
fn webm_vp9_uses_deadline() { let p = EncodeParams { video_codec: VideoCodec::VP9, container: Container::Webm, ..Default::default() }; let s = cmd_str(&p); assert!(s.contains("-deadline good")); assert!(s.contains("-cpu-used")); assert!(!s.contains("-preset ")); }

#[test]
fn webm_no_profile() { let p = EncodeParams { video_codec: VideoCodec::VP9, profile: Some(Profile::High), container: Container::Webm, ..Default::default() }; assert!(!cmd_str(&p).contains("-profile:v")); }

#[test]
fn build_command_with_ffmpeg_path() {
    let cmd = build_command_with_ffmpeg(&EncodeParams::default(), "in.mp4", "out.mp4", Some("/my/ffmpeg"));
    let prog = cmd.program.clone();
    assert_eq!(prog, "/my/ffmpeg");
}

fn args_of(p: &EncodeParams, input: &str, output: &str) -> Vec<String> {
    build_command(p, input, output).args
}

fn value_after(args: &[String], flag: &str) -> Option<String> {
    args.iter().position(|a| a == flag).map(|i| args[i + 1].clone())
}

#[test]
fn command_starts_with_overwrite_and_input_and_ends_with_output() {
    for container in [Container::Mp4, Container::Gif, Container::Mp3] {
        let p = EncodeParams { container, ..Default::default() };
        let a = args_of(&p, "my in.mov", "my out.mp4");
        assert_eq!(&a[..3], &["-y", "-i", "my in.mov"]);
        assert_eq!(&a[a.len() - 4..], &["-progress", "pipe:2", "-nostats", "my out.mp4"]);
    }
}

#[test]
fn default_command_exact_arguments() {
    let a = args_of(&EncodeParams::default(), "in.mp4", "out.mp4");
    assert_eq!(
        a,
        vec![
            "-y", "-i", "in.mp4", "-c:v", "libx264", "-crf", "19", "-preset", "medium", "-vf",
            "scale=1920:1080:flags=lanczos", "-pix_fmt", "yuv420p", "-c:a", "aac", "-b:a", "128k",
            "-ac", "2", "-ar", "44100", "-movflags", "faststart", "-progress", "pipe:2",
            "-nostats", "out.mp4",
        ]
    );
}

#[test]
fn gif_command_is_the_palette_graph_alone() {
    let p = EncodeParams {
        container: Container::Gif,
        width: 480,
        height: 270,
        video_filters: vec![VideoFilter::HFlip],
        ..Default::default()
    };
    assert_eq!(
        args_of(&p, "a.mp4", "a.gif"),
        vec![
            "-y", "-i", "a.mp4", "-vf",
            "fps=10,scale=480:270:flags=lanczos,split[s0][s1];[s0]palettegen[p];[s1][p]paletteuse,hflip",
            "-progress", "pipe:2", "-nostats", "a.gif",
        ]
    );
}

#[test]
fn opus_falls_back_to_48k_only_for_rates_it_rejects() {
    let opus = |rate| EncodeParams { audio_codec: AudioCodec::Opus, sample_rate: rate, ..Default::default() };
    assert_eq!(value_after(&args_of(&opus(44100), "i", "o"), "-ar").as_deref(), Some("48000"));
    assert_eq!(value_after(&args_of(&opus(22050), "i", "o"), "-ar").as_deref(), Some("48000"));
    assert_eq!(value_after(&args_of(&opus(24000), "i", "o"), "-ar").as_deref(), Some("24000"));
    let aac = EncodeParams { audio_codec: AudioCodec::Aac, sample_rate: 22050, ..Default::default() };
    assert_eq!(value_after(&args_of(&aac, "i", "o"), "-ar").as_deref(), Some("22050"));
}

#[test]
fn codec_specific_speed_flags() {
    let with = |video_codec, preset| EncodeParams { video_codec, preset, profile: Some(Profile::High), ..Default::default() };
    let av1 = args_of(&with(VideoCodec::AV1, PresetSpeed::Slow), "i", "o");
    assert_eq!(value_after(&av1, "-cpu-used").as_deref(), Some("2"));
    assert!(!av1.iter().any(|a| a == "-profile:v" || a == "-preset"));
    let svt = args_of(&with(VideoCodec::SVTAV1, PresetSpeed::Fast), "i", "o");
    assert_eq!(value_after(&svt, "-preset").as_deref(), Some("7"));
    assert!(!svt.iter().any(|a| a == "-profile:v"));
    let vp9 = args_of(&with(VideoCodec::VP9, PresetSpeed::Medium), "i", "o");
    assert_eq!(value_after(&vp9, "-deadline").as_deref(), Some("good"));
    assert_eq!(value_after(&vp9, "-cpu-used").as_deref(), Some("2"));
    let x264 = args_of(&with(VideoCodec::H264, PresetSpeed::Slow), "i", "o");
    assert_eq!(value_after(&x264, "-preset").as_deref(), Some("slow"));
    assert_eq!(value_after(&x264, "-profile:v").as_deref(), Some("high"));
}

#[test]
fn printed_command_quotes_arguments_with_spaces() {
    let s = command_to_string(&EncodeParams::default(), "my clip.mov", "out.mp4");
    assert!(s.starts_with("ffmpeg -y -i \"my clip.mov\" -c:v libx264"));
    assert!(s.ends_with("-progress pipe:2 -nostats out.mp4"));
}

#[test]
fn ffmpeg_lookup_takes_the_first_that_exists() {
    let c = |p: &str, e: bool| (p.to_string(), e);
    assert_eq!(
        choose_ffmpeg(vec![c("/cfg/ffmpeg", false), c("/env/ffmpeg", true), c("/app/ffmpeg", true)], Some("/usr/bin/ffmpeg".into())),
        Some("/env/ffmpeg".to_string())
    );
    assert_eq!(choose_ffmpeg(vec![c("/a", false), c("/b", false)], Some("/usr/bin/ffmpeg".into())), Some("/usr/bin/ffmpeg".to_string()));
    assert_eq!(choose_ffmpeg(vec![], None), None);
}
