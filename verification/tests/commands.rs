use mediaforge_core::commands::{
    append_history, build_command_preview, create_preset, delete_preset, done_status, plan_batch,
    get_presets, history_entry, is_builtin_preset_id, validate_jobs, HistoryEntry, JobData,
    MAX_HISTORY,
};
use mediaforge_core::enums::{PresetCategory, VideoCodec};
use mediaforge_core::error::MediaForgeError;
use mediaforge_core::job::{EncodeParams, Preset};
use mediaforge_core::preset::builtin_presets;

fn custom(id: &str, name: &str) -> Preset {
    Preset {
        id: id.into(),
        name: name.into(),
        description: String::new(),
        category: PresetCategory::Video,
        params: EncodeParams::default(),
    }
}

#[test]
fn create_preset_refuses_builtin_ids() {
    let r = create_preset(&vec![], custom("default", "mine"));
    assert_eq!(r.unwrap_err(), "Cannot overwrite built-in preset 'default'");
    assert!(is_builtin_preset_id("gif"));
    assert!(!is_builtin_preset_id("mine"));
}

#[test]
fn create_preset_replaces_same_id_and_appends() {
    let list = vec![custom("a", "A1"), custom("b", "B"), custom("a", "A2")];
    let r = create_preset(&list, custom("a", "A3")).unwrap();
    let ids: Vec<(&str, &str)> = r.iter().map(|p| (p.id.as_str(), p.name.as_str())).collect();
    assert_eq!(ids, vec![("b", "B"), ("a", "A3")]);
}

#[test]
fn delete_preset_after_create_restores_others() {
    let list = vec![custom("x", "X"), custom("y", "Y")];
    let created = create_preset(&list, custom("z", "Z")).unwrap();
    let deleted = delete_preset(&created, "z").unwrap();
    let names: Vec<&str> = deleted.iter().map(|p| p.name.as_str()).collect();
    assert_eq!(names, vec!["X", "Y"]);
    assert_eq!(delete_preset(&deleted, "web-vp9").unwrap_err(), "Cannot delete built-in preset 'web-vp9'");
}

#[test]
fn get_presets_lists_builtin_then_custom() {
    let all = get_presets(vec![custom("mine", "Mine"), custom("other", "Other")]);
    assert_eq!(all.len(), 11);
    assert_eq!(all[0].id, "default");
    assert_eq!(all[8].id, "gif");
    assert_eq!(all[9].id, "mine");
    assert_eq!(all[10].id, "other");
}

#[test]
fn preview_uses_dummy_paths() {
    let s = build_command_preview(&EncodeParams::default());
    assert!(s.starts_with("ffmpeg -y -i input.mp4 -c:v libx264"));
    assert!(s.ends_with("-progress pipe:2 -nostats output.mp4"));
}

fn job(input: &str, output: &str, params: EncodeParams) -> JobData {
    JobData { input_path: input.into(), output_path: output.into(), params }
}

#[test]
fn validation_refuses_overwriting_source_first() {
    let no_rate = EncodeParams { crf: None, ..Default::default() };
    let jobs = vec![job("a.mp4", "b.mp4", no_rate), job("c.mp4", "c.mp4", EncodeParams::default())];
    assert_eq!(
        validate_jobs(&jobs).unwrap_err(),
        "Output path is the same as input: c.mp4 — this would overwrite the source file."
    );
    let jobs = vec![job("d/e.mp4", "d//e.mp4", EncodeParams::default())];
    assert!(validate_jobs(&jobs).is_err());
}

#[test]
fn validation_dragon_trap() {
    let no_rate = EncodeParams { crf: None, video_bitrate: None, ..Default::default() };
    assert_eq!(
        validate_jobs(&vec![job("a", "b", no_rate)]).unwrap_err(),
        "Dragon Trap: neither CRF nor video bitrate is set."
    );
    let copy = EncodeParams { video_codec: VideoCodec::Copy, crf: None, ..Default::default() };
    assert!(validate_jobs(&vec![job("a", "b", copy)]).is_ok());
    let bitrate = EncodeParams { crf: None, video_bitrate: Some(3000), ..Default::default() };
    assert!(validate_jobs(&vec![job("a", "b", bitrate)]).is_ok());
    assert!(validate_jobs(&vec![]).is_ok());
}

fn entry(i: u64) -> HistoryEntry {
    history_entry(format!("id{i}"), "in".into(), "out".into(), &Ok("cmd".into()), i, 5)
}

#[test]
fn history_keeps_newest_two_hundred() {
    let mut h: Vec<HistoryEntry> = Vec::new();
    for i in 0..205 {
        h = append_history(h, entry(i));
    }
    assert_eq!(h.len(), MAX_HISTORY);
    assert_eq!(h[0].id, "id5");
    assert_eq!(h[199].id, "id204");
}

#[test]
fn history_entry_statuses() {
    let ok = entry(1);
    assert_eq!(ok.status, "completed");
    assert!(ok.error.is_none());
    assert_eq!(ok.duration_micros, Some(5));
    let r: Result<String, MediaForgeError> = Err(MediaForgeError::Cancelled);
    assert_eq!(done_status(&r), "cancelled");
    let e = history_entry("x".into(), "i".into(), "o".into(), &r, 9, 1);
    assert_eq!(e.error.as_deref(), Some("Encoding cancelled by user"));
    let r: Result<String, MediaForgeError> = Err(MediaForgeError::FfmpegProcess("boom".into()));
    assert_eq!(done_status(&r), "failed");
}

#[test]
fn every_builtin_preset_passes_the_batch_check() {
    for p in builtin_presets() {
        let jobs = vec![job("in/clip.mov", "out/clip.out", p.params)];
        assert_eq!(validate_jobs(&jobs), Ok(()));
    }
}

#[test]
fn batch_history_keeps_the_newest_two_hundred() {
    let mut h: Vec<HistoryEntry> = (0..150).map(entry).collect();
    for i in 150..260 {
        h = append_history(h, entry(i));
    }
    assert_eq!(h.len(), 200);
    assert_eq!(h[0].created_at, 60);
    assert_eq!(h[199].created_at, 259);
}

#[test]
fn refused_batch_makes_no_jobs() {
    let ok = plan_batch(vec![job("a.mov", "a.mp4", EncodeParams::default()), job("b.mov", "b.mp4", EncodeParams::default())]).unwrap();
    assert_eq!(ok.iter().map(|r| r.input_path.as_str()).collect::<Vec<_>>(), vec!["a.mov", "b.mov"]);
    assert_ne!(ok[0].job_id, ok[1].job_id);
    let refused = plan_batch(vec![job("a.mov", "a.mp4", EncodeParams::default()), job("c.mp4", "c.mp4", EncodeParams::default())]);
    assert_eq!(refused.unwrap_err(), "Output path is the same as input: c.mp4 — this would overwrite the source file.");
}
