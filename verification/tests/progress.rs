use std::io::BufRead;

use mediaforge_core::job::ProgressInfo;
use mediaforge_core::progress::{
    exit_failure, parse_probe_duration, parse_progress_line, parse_progress_output,
    progress_event, RunMonitor, RunStep,
};
use mediaforge_core::error::MediaForgeError;
use mediaforge_core::float::parse_float;

/// The lines of a byte buffer, as `BufRead::lines` yields them.
fn lines_of(data: &[u8]) -> Vec<String> {
    data.lines().map_while(Result::ok).collect()
}

#[test]
fn parse_progress_valid() {
    let r = parse_progress_line("out_time_us=123456");
    assert!(r.is_some());
    let (k, v) = r.unwrap();
    assert_eq!(k, "out_time_us");
    assert_eq!(v, "123456");
}

#[test]
fn parse_progress_invalid() {
    assert!(parse_progress_line("not a progress line").is_none());
}

#[test]
fn parse_progress_empty() {
    let data: &[u8] = b"";
    let info = parse_progress_output(&lines_of(&data[..]));
    assert_eq!(info.frame, 0);
    assert_eq!(info.fps_milli, 0);
    assert_eq!(info.out_time_us, 0);
}

#[test]
fn parse_progress_output_fields() {
    let data = b"frame=100\nfps=25.0\nbitrate=1200.5kbits/s\ntotal_size=500000\nout_time_us=4000000\nspeed=2.5x\nprogress=continue\n";
    let info = parse_progress_output(&lines_of(&data[..]));
    assert_eq!(info.frame, 100);
    assert_eq!(info.fps_milli, 25000);
    assert!(info.bitrate.contains("1200.5"));
    assert_eq!(info.total_size, 500000);
    assert_eq!(info.out_time_us, 4000000);
    assert_eq!(info.speed_milli, 2500);
}

/// Runs the stderr lines through the progress filter, as the encoder loop
/// does. Returns (call_count, progress values in hundredths of a percent).
fn simulate_progress_events(lines: &[&str], total_duration_us: Option<u64>) -> (usize, Vec<u32>) {
    let mut call_count = 0;
    let mut pct_values: Vec<u32> = Vec::new();
    let mut on_progress = |info: &ProgressInfo| {
        call_count += 1;
        pct_values.push(info.progress_pct_hundredths);
    };
    for &line in lines {
        if let Some(info) = progress_event(line, total_duration_us) {
            on_progress(&info);
        }
    }
    (call_count, pct_values)
}

#[test]
fn progress_filter_only_emits_out_time_and_end() {
    let total_us = Some(10_000_000u64);
    let lines = [
        "frame=0",
        "fps=0.0",
        "out_time_us=0",
        "speed=0.0x",
        "frame=100",
        "fps=30.0",
        "out_time_us=2500000",
        "speed=3.5x",
        "frame=200",
        "bitrate=1200.5kbits/s",
        "out_time_us=5000000",
        "total_size=500000",
        "frame=300",
        "out_time_us=7500000",
        "speed=2.0x",
        "progress=continue",
        "out_time_us=9990000",
        "progress=end",
    ];
    let (count, pcts) = simulate_progress_events(&lines, total_us);
    assert_eq!(count, 6, "expected 6 callbacks (5 out_time_us + 1 progress=end)");
    assert_eq!(pcts[0], 0, "first: 0%");
    assert_eq!(pcts[1], 2500, "second: 25%");
    assert_eq!(pcts[2], 5000, "third: 50%");
    assert_eq!(pcts[3], 7500, "fourth: 75%");
    assert_eq!(pcts[4], 9990, "fifth: ~99.9% (capped)");
    assert_eq!(pcts[5], 10000, "sixth: 100% (end)");
}

#[test]
fn progress_filter_no_zero_overwrite_from_frame_lines() {
    let total_us = Some(10_000_000u64);
    let lines = [
        "out_time_us=5000000",
        "frame=123",
        "fps=25.0",
        "speed=2.5x",
        "bitrate=1200k",
        "total_size=99999",
        "out_time_us=8000000",
        "progress=end",
    ];
    let (count, pcts) = simulate_progress_events(&lines, total_us);
    assert_eq!(count, 3, "only 3 callbacks: 2 out_time_us + 1 progress=end");
    assert_eq!(pcts, vec![5000, 8000, 10000], "no zero-overwrites from frame/speed/fps lines");
}

#[test]
fn progress_filter_no_duration_still_emits_end() {
    let lines = ["out_time_us=1000000", "out_time_us=5000000", "progress=end"];
    let (count, pcts) = simulate_progress_events(&lines, None);
    assert_eq!(count, 3);
    assert_eq!(pcts[0], 0);
    assert_eq!(pcts[1], 0);
    assert_eq!(pcts[2], 10000);
}

#[test]
fn progress_line_is_split_at_first_equals_and_trimmed() {
    let (k, v) = parse_progress_line("  bitrate = a=b \t").unwrap();
    assert_eq!(k, "bitrate");
    assert_eq!(v, "a=b");
    let (k, v) = parse_progress_line("=").unwrap();
    assert_eq!(k, "");
    assert_eq!(v, "");
}

#[test]
fn progress_percentage_is_capped_below_end() {
    let e = progress_event("out_time_us=20000000", Some(10_000_000)).unwrap();
    assert_eq!(e.progress_pct_hundredths, 9990);
    assert_eq!(e.out_time_us, 20_000_000);
    let e = progress_event("out_time_us=1234567", Some(10_000_000)).unwrap();
    assert_eq!(e.progress_pct_hundredths, 1234);
    let e = progress_event("out_time_us=5000000", Some(0)).unwrap();
    assert_eq!(e.progress_pct_hundredths, 0);
    let e = progress_event("out_time_us=garbage", Some(10)).unwrap();
    assert_eq!(e.out_time_us, 0);
    assert!(progress_event("progress=continue", Some(10)).is_none());
    assert!(progress_event("no equals sign", Some(10)).is_none());
}

#[test]
fn progress_output_keeps_last_values_and_ignores_bad_numbers() {
    let lines: Vec<String> = vec![
        "frame=10".into(),
        "frame=abc".into(),
        "fps=+12.3456".into(),
        "speed=N/A".into(),
        "total_size=18446744073709551616".into(),
        "out_time=00:00:01.000000".into(),
    ];
    let info = parse_progress_output(&lines);
    assert_eq!(info.frame, 0);
    assert_eq!(info.fps_milli, 12345);
    assert_eq!(info.speed_milli, 0);
    assert_eq!(info.total_size, 0);
    assert_eq!(info.progress_pct_hundredths, 0);
}

#[test]
fn probe_duration_parsing() {
    assert_eq!(parse_probe_duration("120.500000\n"), Some(120_500_000));
    assert_eq!(parse_probe_duration("4.35"), Some(4_350_000));
    assert_eq!(parse_probe_duration("7"), Some(7_000_000));
    assert_eq!(parse_probe_duration("1.23456789"), Some(1_234_567));
    assert_eq!(parse_probe_duration("N/A"), None);
    assert_eq!(parse_probe_duration(""), None);
    assert_eq!(parse_probe_duration("."), None);
}

#[test]
fn failure_message_keeps_last_twenty_lines() {
    let lines: Vec<String> = (0..25).map(|i| format!("line {i}")).collect();
    let e = exit_failure(Some(1), "ffmpeg -y -i a b", &lines);
    let m = match e {
        MediaForgeError::FfmpegProcess(m) => m,
        _ => panic!("wrong variant"),
    };
    assert!(m.starts_with("ffmpeg exited with code 1\nCommand: ffmpeg -y -i a b\nStderr (last 20 lines):\nline 5\n"));
    assert!(m.ends_with("line 24"));
    assert!(!m.contains("line 4\n"));
    let e = exit_failure(None, "x", &vec![]);
    assert_eq!(e.message(), "ffmpeg process failed: ffmpeg exited with code -1\nCommand: x\nStderr (last 20 lines):\n");
}

#[test]
fn run_monitor_reports_keeps_lines_and_stops_on_cancel() {
    let mut m = RunMonitor::new(Some(10_000_000));
    assert!(matches!(m.on_line(false, "frame=12".into()), RunStep::Continue));
    match m.on_line(false, "out_time_us=2500000".into()) {
        RunStep::Report(info) => {
            assert_eq!(info.out_time_us, 2_500_000);
            assert_eq!(info.progress_pct_hundredths, 2500);
        }
        other => panic!("unexpected {other:?}"),
    }
    assert!(matches!(m.on_line(false, "progress=continue".into()), RunStep::Continue));
    match m.on_line(false, "progress=end".into()) {
        RunStep::Report(info) => assert_eq!(info.progress_pct_hundredths, 10000),
        other => panic!("unexpected {other:?}"),
    }
    assert!(matches!(m.on_line(true, "never kept".into()), RunStep::Cancel));
    assert_eq!(m.stderr_lines, vec!["frame=12", "out_time_us=2500000", "progress=continue", "progress=end"]);
    assert_eq!(m.finish(true, Some(0), "ffmpeg -y".into()).unwrap(), "ffmpeg -y");
    match m.finish(false, Some(1), "ffmpeg -y".into()) {
        Err(MediaForgeError::FfmpegProcess(msg)) => {
            assert!(msg.starts_with("ffmpeg exited with code 1\nCommand: ffmpeg -y\n"));
            assert!(msg.ends_with("frame=12\nout_time_us=2500000\nprogress=continue\nprogress=end"));
        }
        other => panic!("unexpected {other:?}"),
    }
}

#[test]
fn speed_in_exponent_form() {
    let info = parse_progress_output(&vec!["speed=1.23e+03x".to_string(), "fps=2.5e1".to_string()]);
    assert_eq!(info.speed_milli, 1_230_000);
    assert_eq!(info.fps_milli, 25_000);
    assert_eq!(parse_probe_duration("1.5e1\n"), Some(15_000_000));
}

#[test]
fn decimals_as_f64_parsing_reads_them() {
    assert_eq!(parse_float("1.23e+03", 3), Some(1_230_000));
    assert_eq!(parse_float("2.5", 3), Some(2_500));
    assert_eq!(parse_float("+1.5", 3), Some(1_500));
    assert_eq!(parse_float("1E2", 0), Some(100));
    assert_eq!(parse_float("123e-1", 0), Some(12));
    assert_eq!(parse_float("5e-5", 3), Some(0));
    assert_eq!(parse_float("7e-1000", 3), Some(0));
    assert_eq!(parse_float("1e30", 3), Some(u64::MAX));
    assert_eq!(parse_float("99999999999999999999", 0), Some(u64::MAX));
    assert_eq!(parse_float("-2.5", 3), Some(0));
    assert_eq!(parse_float("inf", 6), Some(u64::MAX));
    assert_eq!(parse_float("-Infinity", 6), Some(0));
    assert_eq!(parse_float("NaN", 6), Some(0));
    assert_eq!(parse_float("1e", 3), None);
    assert_eq!(parse_float("e5", 3), None);
    assert_eq!(parse_float("1e+-2", 3), None);
    assert_eq!(parse_float(".", 3), None);
    assert_eq!(parse_float("--1", 3), None);
    assert_eq!(parse_float("infinit", 3), None);
    assert_eq!(parse_probe_duration("-1.000000\n"), Some(0));
    assert_eq!(parse_probe_duration("inf"), Some(u64::MAX));
    assert_eq!(parse_probe_duration("nan"), Some(0));
}

#[test]
fn silence_times_the_run_out() {
    let m = RunMonitor::new(None);
    let e = m.on_silence();
    assert_eq!(e, MediaForgeError::FfmpegTimeout(30));
    assert_eq!(e.message(), "ffmpeg timed out after 30s without output");
}
