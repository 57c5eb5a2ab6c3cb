use mediaforge_core::enums::{MovFlag, VideoCodec};
use mediaforge_core::job::{EncodeParams, Job, JobQueue, JobStatus, ProgressInfo};

#[test]
fn encode_params_default_values() {
    let p = EncodeParams::default();
    assert_eq!(p.video_codec, VideoCodec::H264);
    assert_eq!(p.width, 1920);
    assert_eq!(p.height, 1080);
    assert_eq!(p.crf, Some(19));
    assert_eq!(p.audio_bitrate, 128);
    assert_eq!(p.audio_channels, 2);
    assert_eq!(p.sample_rate, 44100);
    assert_eq!(p.threads, 0);
    assert!(p.video_bitrate.is_none());
    assert!(p.profile.is_none());
}

#[test]
fn job_new_has_unique_id() {
    let j1 = Job::new("in1.mp4".into(), "out1.mp4".into(), EncodeParams::default());
    let j2 = Job::new("in2.mp4".into(), "out2.mp4".into(), EncodeParams::default());
    assert_ne!(j1.id, j2.id);
}

#[test]
fn job_progress_pct_pending_is_zero() {
    let j = Job::new("in.mp4".into(), "out.mp4".into(), EncodeParams::default());
    assert_eq!(j.progress_pct(), 0);
}

#[test]
fn job_progress_pct_completed_is_100() {
    let mut j = Job::new("in.mp4".into(), "out.mp4".into(), EncodeParams::default());
    j.status = JobStatus::Completed;
    assert_eq!(j.progress_pct(), 10000);
}

#[test]
fn job_progress_pct_running_reflects_info() {
    let mut j = Job::new("in.mp4".into(), "out.mp4".into(), EncodeParams::default());
    j.status = JobStatus::Running(ProgressInfo { progress_pct_hundredths: 4550, ..Default::default() });
    assert_eq!(j.progress_pct(), 4550);
}

#[test]
fn job_progress_pct_failed_is_zero() {
    let mut j = Job::new("in.mp4".into(), "out.mp4".into(), EncodeParams::default());
    j.status = JobStatus::Failed("error".into());
    assert_eq!(j.progress_pct(), 0);
}

#[test]
fn job_progress_pct_cancelled_is_zero() {
    let mut j = Job::new("in.mp4".into(), "out.mp4".into(), EncodeParams::default());
    j.status = JobStatus::Cancelled;
    assert_eq!(j.progress_pct(), 0);
}

#[test]
fn job_queue_add_and_count() {
    let mut q = JobQueue::default();
    assert_eq!(q.pending_count(), 0);
    q.add(Job::new("in.mp4".into(), "out.mp4".into(), EncodeParams::default()));
    assert_eq!(q.pending_count(), 1);
    assert_eq!(q.total_count(), 1);
}

#[test]
fn job_queue_remove() {
    let mut q = JobQueue::default();
    let j = Job::new("in.mp4".into(), "out.mp4".into(), EncodeParams::default());
    let id = j.id;
    q.add(j);
    q.remove(id);
    assert_eq!(q.total_count(), 0);
}

#[test]
fn job_queue_overall_progress_empty() {
    let q = JobQueue::default();
    assert_eq!(q.overall_progress(), 0);
}

#[test]
fn job_queue_overall_progress_averages() {
    let mut q = JobQueue::default();
    let mut j1 = Job::new("in1.mp4".into(), "out1.mp4".into(), EncodeParams::default());
    j1.status = JobStatus::Completed;
    let mut j2 = Job::new("in2.mp4".into(), "out2.mp4".into(), EncodeParams::default());
    j2.status = JobStatus::Running(ProgressInfo { progress_pct_hundredths: 5000, ..Default::default() });
    q.add(j1);
    q.add(j2);
    assert_eq!(q.overall_progress(), 7500);
}

#[test]
fn job_ids_are_version_4_uuids() {
    let j = Job::new("a".into(), "b".into(), EncodeParams::default());
    assert_eq!((j.id >> 76) & 0xf, 4);
    assert_eq!((j.id >> 62) & 0x3, 2);
    assert!(j.created_at_micros > 0);
    assert!(j.ffmpeg_command.is_empty());
}

#[test]
fn job_queue_remove_keeps_order_of_others() {
    let mut q = JobQueue::new();
    let a = Job::new("a".into(), "a.out".into(), EncodeParams::default());
    let b = Job::new("b".into(), "b.out".into(), EncodeParams::default());
    let c = Job::new("c".into(), "c.out".into(), EncodeParams::default());
    let id_b = b.id;
    q.add(a);
    q.add(b);
    q.add(c);
    q.remove(id_b);
    let inputs: Vec<&str> = q.jobs.iter().map(|j| j.input_path.as_str()).collect();
    assert_eq!(inputs, vec!["a", "c"]);
    q.remove(12345);
    assert_eq!(q.total_count(), 2);
}

#[test]
fn job_queue_counts_only_pending_and_floors_average() {
    let mut q = JobQueue::new();
    let mut a = Job::new("a".into(), "x".into(), EncodeParams::default());
    a.status = JobStatus::Running(ProgressInfo { progress_pct_hundredths: 1, ..Default::default() });
    let b = Job::new("b".into(), "y".into(), EncodeParams::default());
    q.add(a);
    q.add(b);
    assert_eq!(q.pending_count(), 1);
    assert_eq!(q.overall_progress(), 0);
}

#[test]
fn metadata_insert_replaces_and_remove_drops() {
    let mut p = EncodeParams::default();
    p.insert_metadata("title", "A");
    p.insert_metadata("artist", "B");
    p.insert_metadata("title", "C");
    assert_eq!(p.metadata, vec![("title".to_string(), "C".to_string()), ("artist".to_string(), "B".to_string())]);
    p.remove_metadata("title");
    assert_eq!(p.metadata, vec![("artist".to_string(), "B".to_string())]);
    let q = p.clone();
    assert_eq!(q.metadata, p.metadata);
    assert_eq!(q.movflags, vec![MovFlag::FastStart]);
}

#[test]
fn adding_then_removing_a_job_restores_the_queue() {
    let mut q = JobQueue::new();
    q.add(Job::new("a".into(), "a.out".into(), EncodeParams::default()));
    q.add(Job::new("b".into(), "b.out".into(), EncodeParams::default()));
    let before: Vec<u128> = q.jobs.iter().map(|j| j.id).collect();
    let fresh = Job::new("c".into(), "c.out".into(), EncodeParams::default());
    let id = fresh.id;
    q.add(fresh);
    q.remove(id);
    let after: Vec<u128> = q.jobs.iter().map(|j| j.id).collect();
    assert_eq!(after, before);
}

#[test]
fn overall_progress_stays_within_one_hundred_percent() {
    let mut q = JobQueue::new();
    for pct in [10000u32, 9990, 0] {
        let mut j = Job::new("a".into(), "b".into(), EncodeParams::default());
        j.status = JobStatus::Running(ProgressInfo { progress_pct_hundredths: pct, ..Default::default() });
        q.add(j);
    }
    let mut done = Job::new("c".into(), "d".into(), EncodeParams::default());
    done.status = JobStatus::Completed;
    q.add(done);
    assert_eq!(q.overall_progress(), 7497);
    assert!(q.overall_progress() <= 10000);
}
