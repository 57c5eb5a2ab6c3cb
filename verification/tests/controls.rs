use mediaforge_core::config::Config;
use mediaforge_core::enums::{AudioFilter, DeinterlaceMethod, MovFlag, VideoFilter};
use mediaforge_core::job::EncodeParams;
use mediaforge_core::session::MediaForgeApp;
use mediaforge_core::text::split_words;

fn app() -> MediaForgeApp {
    MediaForgeApp::new(Config::default(), "/work".into(), None, "Ready".into())
}

#[test]
fn zero_bitrate_means_unset() {
    let mut p = EncodeParams::default();
    p.set_video_bitrate(2500);
    p.set_max_bitrate(4000);
    p.set_bufsize(8000);
    assert_eq!((p.video_bitrate, p.max_bitrate, p.bufsize), (Some(2500), Some(4000), Some(8000)));
    p.set_video_bitrate(0);
    p.set_max_bitrate(0);
    p.set_bufsize(0);
    assert_eq!((p.video_bitrate, p.max_bitrate, p.bufsize), (None, None, None));
}

#[test]
fn deinterlace_box_chooses_yadif() {
    let mut p = EncodeParams::default();
    p.set_deinterlace(true);
    assert_eq!(p.deinterlace, Some(DeinterlaceMethod::Yadif));
    p.set_deinterlace(false);
    assert_eq!(p.deinterlace, None);
}

#[test]
fn simple_mode_always_has_a_crf() {
    let mut p = EncodeParams::default();
    p.crf = None;
    p.ensure_crf();
    assert_eq!(p.crf, Some(19));
    p.crf = Some(30);
    p.ensure_crf();
    assert_eq!(p.crf, Some(30));
}

#[test]
fn movflag_boxes_keep_each_flag_once() {
    let mut p = EncodeParams::default();
    assert_eq!(p.movflags, vec![MovFlag::FastStart]);
    p.set_movflag(MovFlag::FastStart, true);
    assert_eq!(p.movflags, vec![MovFlag::FastStart]);
    p.set_movflag(MovFlag::FragKeyframe, true);
    assert_eq!(p.movflags, vec![MovFlag::FastStart, MovFlag::FragKeyframe]);
    p.set_movflag(MovFlag::FastStart, false);
    assert_eq!(p.movflags, vec![MovFlag::FragKeyframe]);
    p.movflags = vec![MovFlag::FragKeyframe, MovFlag::FastStart, MovFlag::FragKeyframe];
    p.set_movflag(MovFlag::FragKeyframe, false);
    assert_eq!(p.movflags, vec![MovFlag::FastStart]);
}

#[test]
fn filter_buttons_remove_by_position() {
    let mut p = EncodeParams::default();
    p.video_filters = vec![VideoFilter::HFlip, VideoFilter::Rotate(90), VideoFilter::Grayscale];
    p.remove_video_filter(1);
    assert_eq!(p.video_filters, vec![VideoFilter::HFlip, VideoFilter::Grayscale]);
    p.audio_filters = vec![AudioFilter::Volume(200), AudioFilter::Loudnorm];
    p.remove_audio_filter(0);
    assert_eq!(p.audio_filters, vec![AudioFilter::Loudnorm]);
}

#[test]
fn empty_trim_text_means_no_trim() {
    let mut p = EncodeParams::default();
    p.set_trim_start("00:01:30".into());
    p.set_trim_end("300".into());
    assert_eq!(p.trim_start.as_deref(), Some("00:01:30"));
    assert_eq!(p.trim_end.as_deref(), Some("300"));
    p.set_trim_start(String::new());
    p.set_trim_end(String::new());
    assert_eq!((p.trim_start, p.trim_end), (None, None));
}

#[test]
fn extra_args_line_splits_on_whitespace() {
    let mut p = EncodeParams::default();
    p.set_extra_args_text("  -tune film\t-x264-params\u{3000}keyint=60  ");
    assert_eq!(p.extra_args, vec!["-tune", "film", "-x264-params", "keyint=60"]);
    assert_eq!(p.extra_args_text(), "-tune film -x264-params keyint=60");
    p.set_extra_args_text("   ");
    assert!(p.extra_args.is_empty());
    assert_eq!(p.extra_args_text(), "");
    assert_eq!(split_words("a"), vec!["a"]);
    assert_eq!(split_words(""), Vec::<String>::new());
}

#[test]
fn extra_args_line_reads_back_unchanged() {
    let mut p = EncodeParams::default();
    p.extra_args = vec!["-g".into(), "48".into(), "-bf".into(), "2".into()];
    let shown = p.extra_args_text();
    p.set_extra_args_text(&shown);
    assert_eq!(p.extra_args, vec!["-g", "48", "-bf", "2"]);
    p.set_extra_args_text(" x\n\ny ");
    let once = p.extra_args.clone();
    let shown = p.extra_args_text();
    p.set_extra_args_text(&shown);
    assert_eq!(p.extra_args, once);
}

#[test]
fn metadata_entry_needs_a_key() {
    let mut a = app();
    a.new_meta_val = "x".into();
    a.add_metadata_entry();
    assert!(a.params.metadata.is_empty());
    assert_eq!(a.new_meta_val, "x");
    a.new_meta_key = "title".into();
    a.new_meta_val = "My clip".into();
    a.add_metadata_entry();
    assert_eq!(a.params.metadata, vec![("title".to_string(), "My clip".to_string())]);
    assert!(a.new_meta_key.is_empty() && a.new_meta_val.is_empty());
    a.new_meta_key = "title".into();
    a.new_meta_val = "Other".into();
    a.add_metadata_entry();
    assert_eq!(a.params.metadata, vec![("title".to_string(), "Other".to_string())]);
}

#[test]
fn declining_overwrite_drops_the_awaiting_files() {
    let mut a = app();
    a.selected_files = vec!["/v/a.mov".into()];
    a.add_to_queue(&vec![true]);
    assert!(a.show_overwrite_dialog);
    a.decline_overwrite();
    assert!(!a.show_overwrite_dialog);
    assert!(a.overwrite_files.is_empty());
    assert!(a.overwrite_params.is_none());
    assert!(a.job_queue.jobs.is_empty());
}

#[test]
fn dropped_files_wait_while_encoding() {
    let mut a = app();
    assert!(!a.can_add_to_queue());
    a.add_dropped_files(vec!["/v/a.mov".into()]);
    assert!(a.can_add_to_queue());
    assert!(!a.can_start_encoding());
    a.add_to_queue(&vec![]);
    assert!(a.can_start_encoding());
    let _runs = a.start_encoding("Encoding".into());
    assert!(!a.can_start_encoding());
    a.add_dropped_files(vec!["/v/b.mov".into()]);
    assert!(a.selected_files.is_empty());
}

#[test]
fn settings_fields() {
    let mut a = app();
    a.set_ffmpeg_path_text("/opt/ffmpeg".into());
    assert_eq!(a.config.ffmpeg_path.as_deref(), Some("/opt/ffmpeg"));
    a.set_ffmpeg_path_text(String::new());
    assert_eq!(a.config.ffmpeg_path, None);
    a.show_settings = true;
    a.lang = mediaforge_core::i18n::Language::PtBr;
    a.cancel_settings();
    assert_eq!(a.lang, mediaforge_core::i18n::Language::EnUs);
    assert!(!a.show_settings);
}

#[test]
fn controls_keep_their_ranges() {
    let mut p = EncodeParams::default();
    p.set_video_bitrate(250_000);
    assert_eq!(p.video_bitrate, Some(100_000));
    p.set_crf(Some(70));
    assert_eq!(p.crf, Some(51));
    p.set_crf(Some(18));
    assert_eq!(p.crf, Some(18));
    p.set_crf(None);
    assert_eq!(p.crf, None);
    p.set_size(10, 9000);
    assert_eq!((p.width, p.height), (64, 4320));
    p.set_size(1280, 720);
    assert_eq!((p.width, p.height), (1280, 720));
    p.set_fixed_fps(0);
    assert_eq!(p.fps, mediaforge_core::enums::FpsMode::Fixed(1));
    p.set_fixed_fps(240);
    assert_eq!(p.fps, mediaforge_core::enums::FpsMode::Fixed(120));
    p.set_threads(64);
    assert_eq!(p.threads, 32);
    p.set_audio_bitrate(8);
    assert_eq!(p.audio_bitrate, 32);
    p.set_audio_bitrate(500);
    assert_eq!(p.audio_bitrate, 320);
    p.set_audio_channels(0);
    assert_eq!(p.audio_channels, 1);
    p.set_audio_channels(12);
    assert_eq!(p.audio_channels, 8);
}
