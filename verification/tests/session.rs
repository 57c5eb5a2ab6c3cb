use mediaforge_core::config::Config;
use mediaforge_core::enums::Container;
use mediaforge_core::i18n::Language;
use mediaforge_core::job::{EncodeParams, Job, JobStatus, ProgressInfo};
use mediaforge_core::session::{completion_message, JobEvent, MediaForgeApp};

fn app() -> MediaForgeApp {
    MediaForgeApp::new(Config::default(), "/work".into(), Some("/bin/ffmpeg".into()), "Ready".into())
}

#[test]
fn new_window_starts_with_web_h264() {
    let a = app();
    assert_eq!(a.selected_preset, "web-h264");
    assert_eq!(a.params.crf, Some(23));
    assert_eq!(a.presets.len(), 9);
    assert_eq!(a.output_dir, "/work");
    assert!(!a.is_encoding);
}

#[test]
fn apply_preset_keeps_custom_size() {
    let mut a = app();
    a.params.width = 1280;
    a.params.height = 720;
    a.apply_preset("archive-h264");
    assert_eq!(a.selected_preset, "archive-h264");
    assert_eq!(a.params.crf, Some(16));
    assert_eq!((a.params.width, a.params.height), (1280, 720));
    a.apply_preset("gif");
    assert_eq!((a.params.width, a.params.height), (480, 270));
    a.apply_preset("nope");
    assert_eq!(a.selected_preset, "gif");
}

#[test]
fn output_path_goes_to_export() {
    let mut a = app();
    assert_eq!(a.output_path("/videos/clip.mov"), "/work/export/clip.mp4");
    a.params.container = Container::Webm;
    assert_eq!(a.output_path("holiday.final.mkv"), "/work/export/holiday.webm");
}

#[test]
fn queue_splits_conflicts_and_confirm_adds_them() {
    let mut a = app();
    a.selected_files = vec!["a.mp4".into(), "b.mp4".into(), "c.mp4".into()];
    a.add_to_queue(&vec![false, true]);
    assert!(a.selected_files.is_empty());
    assert_eq!(a.job_queue.jobs.len(), 2);
    assert_eq!(a.job_queue.jobs[0].input_path, "a.mp4");
    assert_eq!(a.job_queue.jobs[1].input_path, "c.mp4");
    assert!(a.job_queue.jobs[0].ffmpeg_command.starts_with("/bin/ffmpeg -y -i a.mp4"));
    assert!(a.show_overwrite_dialog);
    assert_eq!(a.overwrite_files, vec![("b.mp4".to_string(), "/work/export/b.mp4".to_string())]);
    a.confirm_overwrite();
    assert!(!a.show_overwrite_dialog);
    assert_eq!(a.job_queue.jobs.len(), 3);
    assert_eq!(a.job_queue.jobs[2].output_path, "/work/export/b.mp4");
    assert!(a.overwrite_params.is_none());
}

#[test]
fn events_finish_the_batch() {
    let mut a = app();
    let j1 = Job::new("a".into(), "x".into(), EncodeParams::default());
    let j2 = Job::new("b".into(), "y".into(), EncodeParams::default());
    let (id1, id2) = (j1.id, j2.id);
    a.job_queue.add(j1);
    a.job_queue.add(j2);
    a.selected_files = vec!["a".into()];
    let runs = a.start_encoding("Encoding".into());
    assert_eq!(runs.len(), 2);
    assert!(a.is_encoding);
    a.drain_events(vec![
        JobEvent::Progress { job_id: id1, info: ProgressInfo { progress_pct_hundredths: 5000, ..Default::default() } },
        JobEvent::Completed { job_id: id1 },
    ]);
    assert!(a.is_encoding);
    assert!(matches!(a.job_queue.jobs[0].status, JobStatus::Completed));
    a.drain_events(vec![JobEvent::Failed { job_id: id2, error: "bad".into() }]);
    assert!(!a.is_encoding);
    assert!(a.job_queue.jobs.is_empty());
    assert!(a.selected_files.is_empty());
    assert_eq!(a.status_message, "Complete — 1 file(s) processed");
}

#[test]
fn cancel_marks_active_jobs() {
    let mut a = app();
    let mut done = Job::new("a".into(), "x".into(), EncodeParams::default());
    done.status = JobStatus::Completed;
    a.job_queue.add(done);
    a.job_queue.add(Job::new("b".into(), "y".into(), EncodeParams::default()));
    a.is_encoding = true;
    a.cancel_encoding();
    assert!(!a.is_encoding);
    assert!(matches!(a.job_queue.jobs[0].status, JobStatus::Completed));
    assert!(matches!(a.job_queue.jobs[1].status, JobStatus::Cancelled));
}

#[test]
fn manual_path_is_trimmed() {
    let mut a = app();
    a.manual_path_input = "  /tmp/x.mp4 ".into();
    a.add_manual_path(true);
    assert_eq!(a.selected_files, vec!["/tmp/x.mp4".to_string()]);
    assert!(a.manual_path_input.is_empty());
    a.manual_path_input = "   ".into();
    a.add_manual_path(true);
    assert_eq!(a.manual_path_input, "   ");
    assert_eq!(completion_message(Language::PtBr, 2), "Concluído — 2 arquivo(s) processado(s)");
}

#[test]
fn one_frame_of_the_window() {
    let mut a = app();
    a.pending_open_dialog = false;
    let (runs, open) = a.frame(vec![], vec!["/v/a.mov".into()], true, false, false, "Encoding".into());
    assert!(runs.is_none());
    assert!(open);
    assert!(!a.pending_open_dialog);
    assert_eq!(a.selected_files, vec!["/v/a.mov"]);
    a.add_to_queue(&vec![]);
    let id = a.job_queue.jobs[0].id;
    let (runs, open) = a.frame(vec![], vec![], false, true, false, "Encoding".into());
    assert!(!open);
    assert_eq!(runs.unwrap().iter().map(|r| r.job_id).collect::<Vec<_>>(), vec![id]);
    assert!(a.is_encoding);
    // Dropped files wait while encoding; Escape stops the batch.
    let (runs, _) = a.frame(vec![], vec!["/v/b.mov".into()], false, false, true, "Encoding".into());
    assert!(runs.is_none());
    assert!(a.selected_files.is_empty());
    assert!(!a.is_encoding);
    assert!(matches!(a.job_queue.jobs[0].status, JobStatus::Cancelled));
    // A finished batch ends when its last event comes in.
    let mut b = app();
    b.selected_files = vec!["/v/c.mov".into()];
    b.add_to_queue(&vec![]);
    let id = b.job_queue.jobs[0].id;
    let _ = b.frame(vec![], vec![], false, true, false, "Encoding".into());
    let _ = b.frame(vec![JobEvent::Completed { job_id: id }], vec![], false, false, false, "x".into());
    assert!(!b.is_encoding);
    assert!(b.job_queue.jobs.is_empty());
    assert_eq!(b.status_message, "Complete — 1 file(s) processed");
}
