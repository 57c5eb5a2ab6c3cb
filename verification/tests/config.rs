use mediaforge_core::config::{custom_presets_path, history_path, Config};
use mediaforge_core::enums::{Theme, UiMode};
use mediaforge_core::error::MediaForgeError;
use mediaforge_core::i18n::Language;
use mediaforge_core::text::trim_str;

#[test]
fn default_values() {
    let c = Config::default();
    assert!(c.ffmpeg_path.is_none());
    assert_eq!(c.parallel_jobs, 1);
}

#[test]
fn config_path_ends_with_toml() {
    assert!(Config::config_path(None, Some("/home/u")).ends_with("config.toml"));
    assert!(Config::config_path(Some("/xdg"), Some("/home/u")).ends_with("config.toml"));
    assert!(Config::config_path(None, None).ends_with("config.toml"));
}

#[test]
fn config_locations() {
    assert_eq!(Config::config_dir(Some("/x"), Some("/home/u")), "/x");
    assert_eq!(Config::config_dir(None, Some("/home/u")), "/home/u/.config");
    assert_eq!(Config::config_dir(None, Some("/home/u/")), "/home/u/.config");
    assert_eq!(Config::config_dir(None, None), ".");
    assert_eq!(Config::config_path(None, Some("/home/u")), "/home/u/.config/mediaforge/config.toml");
    assert_eq!(history_path(Some("/c"), None), "/c/mediaforge/history.json");
    assert_eq!(custom_presets_path(None, None), "./mediaforge/presets.json");
    let c = Config::default();
    assert_eq!(c.language, Language::EnUs);
    assert_eq!(c.theme, Theme::Dark);
    assert_eq!(c.default_mode, UiMode::Simple);
}

#[test]
fn error_messages() {
    assert_eq!(MediaForgeError::Cancelled.message(), "Encoding cancelled by user");
    assert_eq!(MediaForgeError::NoInputFiles.message(), "No input files selected");
    assert_eq!(MediaForgeError::Config("bad".into()).message(), "Configuration error: bad");
    assert_eq!(MediaForgeError::FfprobeError("no stream".into()).message(), "ffprobe error: no stream");
    assert_eq!(MediaForgeError::Io("denied".into()).message(), "I/O error: denied");
    assert_eq!(MediaForgeError::FfmpegProcess("boom".into()).message(), "ffmpeg process failed: boom");
    assert_eq!(
        MediaForgeError::FfmpegNotFound("/x/ffmpeg".into()).message(),
        "ffmpeg not found at `/x/ffmpeg`. Install ffmpeg or set the path in Settings."
    );
    assert_eq!(
        MediaForgeError::IncompatibleCodec { video_codec: "VP9".into(), container: "Mp4".into() }.message(),
        "Unsupported codec/container combination: \"VP9\" + \"Mp4\""
    );
    assert_eq!(
        MediaForgeError::IncompatibleCodec { video_codec: "a\"b".into(), container: "tab\there".into() }.message(),
        "Unsupported codec/container combination: \"a\\\"b\" + \"tab\\there\""
    );
}

#[test]
fn text_helpers() {
    assert_eq!(trim_str("\u{3000} a b\t\n"), "a b");
    assert_eq!(trim_str("   "), "");
}
