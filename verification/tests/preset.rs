use mediaforge_core::enums::{Container, DeinterlaceMethod, PresetCategory, VideoCodec};
use mediaforge_core::preset::{builtin_presets, get_builtin_preset_ids};

#[test]
fn builtin_count() { assert_eq!(builtin_presets().len(), 9); }

#[test]
fn ids_are_unique() {
    let presets = builtin_presets();
    let mut ids: Vec<&str> = presets.iter().map(|p| p.id.as_str()).collect();
    ids.sort();
    ids.dedup();
    assert_eq!(ids.len(), presets.len());
}

#[test]
fn every_preset_has_rate_control() {
    for p in builtin_presets() {
        if p.id == "gif" { continue; }
        assert!(p.params.crf.is_some() || p.params.video_bitrate.is_some(),
            "Preset {} has neither CRF nor bitrate", p.id);
    }
}

#[test]
fn preset_default_exists() {
    assert!(builtin_presets().iter().any(|p| p.id == "default"));
}

#[test]
fn categories_valid() {
    for p in builtin_presets() {
        match p.category {
            PresetCategory::Video | PresetCategory::Audio | PresetCategory::Image => {}
        }
    }
}

#[test]
fn builtin_preset_contents() {
    let ps = builtin_presets();
    assert_eq!(ps[0].name, "Padrão (H.264 CRF 19)");
    assert_eq!(ps[0].params.deinterlace, Some(DeinterlaceMethod::Yadif));
    assert_eq!(ps[0].params.threads, 2);
    assert_eq!(ps[3].params.video_codec, VideoCodec::VP9);
    assert_eq!(ps[3].params.container, Container::Webm);
    assert!(ps[3].params.movflags.len() == 1);
    assert_eq!(ps[7].params.sample_rate, 48000);
    assert_eq!(ps[8].params.width, 480);
    assert_eq!(ps[8].params.crf, None);
    assert_eq!(ps[8].category, PresetCategory::Image);
    let ids = get_builtin_preset_ids();
    assert_eq!(ids, vec!["default", "web-h264", "web-h265", "web-vp9", "archive-h264", "audio-mp3", "audio-aac", "audio-opus", "gif"]);
}

#[test]
fn gif_preset_runs_at_fifteen_frames_per_second() {
    let gif = builtin_presets().into_iter().find(|p| p.id == "gif").unwrap();
    assert_eq!(gif.params.fps, mediaforge_core::enums::FpsMode::Fixed(15));
    let cmd = mediaforge_core::ffmpeg::command_to_string(&gif.params, "in.mp4", "out.gif");
    assert!(cmd.contains("-vf fps=15,scale=480:270:flags=lanczos,split[s0][s1];[s0]palettegen[p];[s1][p]paletteuse"));
}
