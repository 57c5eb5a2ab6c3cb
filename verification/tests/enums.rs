use mediaforge_core::enums::{
    AudioCodec, AudioFilter, Container, DeinterlaceMethod, FpsMode, MovFlag, PixelFormat,
    PresetSpeed, Profile, ScaleAlgorithm, VideoCodec, VideoFilter,
};
use mediaforge_core::i18n::Language;

#[test] fn video_codec_count() { assert_eq!(VideoCodec::ALL.len(), 6); }
#[test] fn video_codec_names() { assert_eq!(VideoCodec::H264.ffmpeg_name(), "libx264"); assert_eq!(VideoCodec::Copy.ffmpeg_name(), "copy"); }
#[test] fn audio_codec_count() { assert_eq!(AudioCodec::ALL.len(), 6); }
#[test] fn audio_codec_names() { assert_eq!(AudioCodec::Aac.ffmpeg_name(), "aac"); assert_eq!(AudioCodec::Mp3.ffmpeg_name(), "libmp3lame"); }
#[test] fn container_count() { assert_eq!(Container::ALL.len(), 7); }
#[test] fn container_ext() { assert_eq!(Container::Mp4.extension(), "mp4"); assert_eq!(Container::Webm.extension(), "webm"); }
#[test] fn preset_speed_count() { assert_eq!(PresetSpeed::ALL.len(), 9); }
#[test] fn profile_count() { assert_eq!(Profile::ALL.len(), 3); }
#[test] fn pixel_format_count() { assert_eq!(PixelFormat::ALL.len(), 5); }
#[test] fn scale_algo_values() { let _ = ScaleAlgorithm::Bilinear; let _ = ScaleAlgorithm::Lanczos; }
#[test] fn fps_display() { assert_eq!(FpsMode::SameAsSource.to_string(), "Same as source"); assert_eq!(FpsMode::Fixed(30).to_string(), "30 fps"); }
#[test] fn movflag_values() { let _ = MovFlag::FastStart; let _ = MovFlag::FragKeyframe; }
#[test] fn deinterlace_values() { let _ = DeinterlaceMethod::Yadif; let _ = DeinterlaceMethod::Bwdif; }

#[test]
fn labels_and_names() {
    assert_eq!(VideoCodec::H265.label(), "H.265 / HEVC (libx265)");
    assert_eq!(AudioCodec::Copy.label(), "Copy (no re-encode)");
    assert_eq!(Container::Mp3.label(), "MP3 (audio only)");
    assert_eq!(Container::Mp3.extension(), "mp3");
    assert_eq!(PresetSpeed::Veryslow.ffmpeg_name(), "veryslow");
    assert_eq!(Profile::High.ffmpeg_name(), "high");
    assert_eq!(PixelFormat::Nv12.ffmpeg_name(), "nv12");
    assert_eq!(DeinterlaceMethod::Bwdif.ffmpeg_name(), "bwdif");
    assert_eq!(ScaleAlgorithm::Bicubic.ffmpeg_flag(), "bicubic");
    assert_eq!(MovFlag::FragKeyframe.ffmpeg_name(), "frag_keyframe");
    assert_eq!(Language::PtBr.code(), "pt-BR");
    assert_eq!(Language::PtBr.label(), "Português (BR)");
    assert_eq!(Language::ALL.len(), 2);
}

#[test]
fn speed_mappings_follow_speed_order() {
    assert_eq!(PresetSpeed::Ultrafast.vp9_cpu_used(), 5);
    assert_eq!(PresetSpeed::Medium.vp9_cpu_used(), 2);
    assert_eq!(PresetSpeed::Veryslow.vp9_cpu_used(), 0);
    assert_eq!(PresetSpeed::Ultrafast.av1_cpu_used(), 8);
    assert_eq!(PresetSpeed::Medium.av1_cpu_used(), 3);
    assert_eq!(PresetSpeed::Veryslow.av1_cpu_used(), 0);
    assert_eq!(PresetSpeed::Ultrafast.svtav1_preset(), 13);
    assert_eq!(PresetSpeed::Medium.svtav1_preset(), 5);
    assert_eq!(PresetSpeed::Veryslow.svtav1_preset(), 0);
    let all = PresetSpeed::ALL;
    for w in all.windows(2) {
        assert!(w[0].vp9_cpu_used() >= w[1].vp9_cpu_used());
        assert!(w[0].av1_cpu_used() >= w[1].av1_cpu_used());
        assert!(w[0].svtav1_preset() >= w[1].svtav1_preset());
    }
}

#[test]
fn video_filter_strings() {
    assert_eq!(VideoFilter::Rotate(90).to_ffmpeg_string(), "rotate=1.570796");
    assert_eq!(VideoFilter::Rotate(180).to_ffmpeg_string(), "rotate=3.141593");
    assert_eq!(VideoFilter::Rotate(-90).to_ffmpeg_string(), "rotate=-1.570796");
    assert_eq!(VideoFilter::Crop { w: 640, h: 480, x: 10, y: 20 }.to_ffmpeg_string(), "crop=640:480:10:20");
    assert_eq!(VideoFilter::Brightness(-5).to_ffmpeg_string(), "eq=brightness=-0.05");
    assert_eq!(VideoFilter::Contrast(150).to_ffmpeg_string(), "eq=contrast=1.50");
    assert_eq!(VideoFilter::Saturation(0).to_ffmpeg_string(), "eq=saturation=0.00");
    assert_eq!(VideoFilter::Rotate(270).label(), "Rotate 270°");
    assert_eq!(VideoFilter::Crop { w: 640, h: 480, x: 10, y: 20 }.label(), "Crop 640x480 @ (10,20)");
    assert_eq!(VideoFilter::Brightness(50).label(), "Brightness +0.50");
    assert_eq!(VideoFilter::Contrast(-120).label(), "Contrast -1.20");
    assert_eq!(VideoFilter::Saturation(300).label(), "Saturation 3.00");
    assert_eq!(VideoFilter::HFlip.label(), "Flip Horizontal");
}

#[test]
fn audio_filter_strings() {
    assert_eq!(AudioFilter::Volume(50).to_ffmpeg_string(), "volume=0.50");
    assert_eq!(AudioFilter::Loudnorm.to_ffmpeg_string(), "loudnorm=I=-16:LRA=11:TP=-1.5");
    assert_eq!(AudioFilter::Highpass(80).to_ffmpeg_string(), "highpass=f=80");
    assert_eq!(AudioFilter::Volume(200).label(), "Volume 2.00x");
    assert_eq!(AudioFilter::Lowpass(3000).label(), "Lowpass 3000Hz");
    assert_eq!(AudioFilter::Loudnorm.label(), "Loudness Norm (EBU R128)");
}
