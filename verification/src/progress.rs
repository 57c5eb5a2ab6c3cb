//! Reading ffmpeg's `-progress` output: `key=value` lines, the running
//! totals they describe, and which lines move a progress bar.
use vstd::prelude::*;

use crate::error::MediaForgeError;
use crate::job::{zero_progress, ProgressInfo, ProgressView};
use crate::float::{parse_float, parse_float_of};
use crate::parse::{parse_u64, parse_u64_of};
use crate::text::{
    chars_of, find_char, first_index, int_to_string, join, join_strings, lemma_strs_push, owned,
    signed_dec, string_of_range, strs, trim, trim_range,
};

verus! {

broadcast use vstd::seq_lib::group_seq_properties;

/// The key and value of a `key=value` line, split at the first `=` and
/// each trimmed; `None` for a line without `=`.
pub open spec fn split_progress_line(s: Seq<char>) -> Option<(Seq<char>, Seq<char>)> {
    match first_index(s, '=') {
        Some(i) => Some((trim(s.take(i)), trim(s.skip(i + 1)))),
        None => None,
    }
}

/// Splits a progress line at its first `=` and trims both sides.
pub fn parse_progress_line(line: &str) -> (r: Option<(String, String)>)
    ensures
        match r {
            Some((k, v)) => split_progress_line(line@) == Some((k@, v@)),
            None => split_progress_line(line@) is None,
        },
{
    let v = chars_of(line);
    match find_char(&v, '=') {
        Some(i) => {
            assert(i < v.len());
            let key = trim_range(&v, 0, i);
            let value = trim_range(&v, i + 1, v.len());
            assert(v@.subrange(0, i as int) =~= line@.take(i as int));
            assert(v@.subrange(i + 1, v@.len() as int) =~= line@.skip(i + 1));
            Some((key, value))
        },
        None => None,
    }
}

/// The number a value spells, or 0 when it spells none.
pub open spec fn or_zero(o: Option<u64>) -> u64 {
    match o {
        Some(x) => x,
        None => 0,
    }
}

/// A rate such as `2.5` (or `1.23e+03`, the form ffmpeg prints from a
/// thousand up) in thousandths, as `str::parse::<f64>` reads it; 0 when it
/// is not a number, negative or NaN.
pub open spec fn milli_of(s: Seq<char>) -> u64 {
    or_zero(parse_float_of(s, 3))
}

/// The running totals after one `key=value` line.
pub open spec fn progress_step(info: ProgressView, key: Seq<char>, value: Seq<char>) -> ProgressView {
    if key == "frame"@ {
        ProgressView { frame: or_zero(parse_u64_of(value)), ..info }
    } else if key == "fps"@ {
        ProgressView { fps_milli: milli_of(value), ..info }
    } else if key == "bitrate"@ {
        ProgressView { bitrate: value, ..info }
    } else if key == "total_size"@ {
        ProgressView { total_size: or_zero(parse_u64_of(value)), ..info }
    } else if key == "out_time_us"@ {
        ProgressView { out_time_us: or_zero(parse_u64_of(value)), ..info }
    } else if key == "speed"@ {
        if value.len() > 0 && value.last() == 'x' {
            ProgressView { speed_milli: milli_of(value.drop_last()), ..info }
        } else {
            info
        }
    } else if key == "out_time"@ {
        ProgressView { progress_pct_hundredths: 0, ..info }
    } else {
        info
    }
}

/// The totals that a sequence of progress lines describes, from zero.
pub open spec fn progress_of_lines(lines: Seq<Seq<char>>) -> ProgressView
    decreases lines.len(),
{
    if lines.len() == 0 {
        zero_progress()
    } else {
        let info = progress_of_lines(lines.drop_last());
        match split_progress_line(lines.last()) {
            Some((k, v)) => progress_step(info, k, v),
            None => info,
        }
    }
}

fn key_is(k: &String, lit: &str) -> (b: bool)
    ensures
        b == (k@ == lit@),
{
    *k == owned(lit)
}

/// Applies one `key=value` line to the running totals.
fn apply_progress_line(info: &mut ProgressInfo, key: String, value: String)
    ensures
        final(info)@ == progress_step(old(info)@, key@, value@),
{
    if key_is(&key, "frame") {
        info.frame = match parse_u64(value.as_str()) {
            Some(x) => x,
            None => 0,
        };
    } else if key_is(&key, "fps") {
        info.fps_milli = match parse_float(value.as_str(), 3) {
            Some(x) => x,
            None => 0,
        };
    } else if key_is(&key, "bitrate") {
        info.bitrate = value;
    } else if key_is(&key, "total_size") {
        info.total_size = match parse_u64(value.as_str()) {
            Some(x) => x,
            None => 0,
        };
    } else if key_is(&key, "out_time_us") {
        info.out_time_us = match parse_u64(value.as_str()) {
            Some(x) => x,
            None => 0,
        };
    } else if key_is(&key, "speed") {
        let v = chars_of(value.as_str());
        if v.len() > 0 && v[v.len() - 1] == 'x' {
            let num = string_of_range(&v, 0, v.len() - 1);
            assert(v@.subrange(0, v@.len() - 1) =~= value@.drop_last());
            info.speed_milli = match parse_float(num.as_str(), 3) {
                Some(x) => x,
                None => 0,
            };
        }
    } else if key_is(&key, "out_time") {
        info.progress_pct_hundredths = 0;
    }
}

/// The totals that ffmpeg's progress lines describe: frame count, frame
/// rate, bitrate, size, position and speed, each as last reported.
pub fn parse_progress_output(lines: &Vec<String>) -> (r: ProgressInfo)
    ensures
        r@ == progress_of_lines(strs(lines@)),
{
    let ghost ls = strs(lines@);
    let mut info = ProgressInfo::default();
    let mut i: usize = 0;
    while i < lines.len()
        invariant
            i <= lines@.len(),
            ls == strs(lines@),
            info@ == progress_of_lines(ls.take(i as int)),
        decreases lines@.len() - i,
    {
        assert(ls.take(i + 1).drop_last() =~= ls.take(i as int));
        assert(ls.take(i + 1).last() == lines@[i as int]@);
        match parse_progress_line(lines[i].as_str()) {
            Some((k, v)) => {
                apply_progress_line(&mut info, k, v);
            },
            None => {},
        }
        i = i + 1;
    }
    assert(ls.take(lines@.len() as int) =~= ls);
    info
}

/// Progress in hundredths of a percent at position `t` of a source that
/// lasts `total` microseconds: capped at 99.9% (the end is reported apart),
/// 0 when the duration is unknown.
pub open spec fn progress_pct_at(t: u64, total: Option<u64>) -> nat {
    match total {
        Some(d) => if d > 0 {
            if (t as nat) * 10000 / (d as nat) < 9990 {
                (t as nat) * 10000 / (d as nat)
            } else {
                9990
            }
        } else {
            0
        },
        None => 0,
    }
}

/// The progress update a `key=value` line triggers: a position line
/// (`out_time_us`) and the end line (`progress=end`) trigger one, every
/// other line none.
pub open spec fn progress_event_of(key: Seq<char>, value: Seq<char>, total: Option<u64>) -> Option<
    ProgressView,
> {
    if key == "out_time_us"@ {
        let t = or_zero(parse_u64_of(value));
        Some(
            ProgressView {
                out_time_us: t,
                progress_pct_hundredths: progress_pct_at(t, total) as u32,
                ..zero_progress()
            },
        )
    } else if key == "progress"@ && value == "end"@ {
        Some(ProgressView { progress_pct_hundredths: 10000, ..zero_progress() })
    } else {
        None
    }
}

/// The progress update a raw stderr line triggers, if any.
pub open spec fn line_event_of(line: Seq<char>, total: Option<u64>) -> Option<ProgressView> {
    match split_progress_line(line) {
        Some((k, v)) => progress_event_of(k, v, total),
        None => None,
    }
}

/// The update to report for one line of ffmpeg's stderr, given the
/// source's duration in microseconds when it is known. Lines other than
/// `out_time_us=…` and `progress=end` report nothing, so that they cannot
/// overwrite a shown percentage with zero.
pub fn progress_event(line: &str, total_duration_us: Option<u64>) -> (r: Option<ProgressInfo>)
    ensures
        match r {
            Some(info) => line_event_of(line@, total_duration_us) == Some(info@),
            None => line_event_of(line@, total_duration_us) is None,
        },
{
    let (key, value) = match parse_progress_line(line) {
        Some(kv) => kv,
        None => return None,
    };
    if key_is(&key, "out_time_us") {
        let t: u64 = match parse_u64(value.as_str()) {
            Some(x) => x,
            None => 0,
        };
        let mut info = ProgressInfo::default();
        info.out_time_us = t;
        if let Some(total) = total_duration_us {
            if total > 0 {
                let scaled: u128 = (t as u128) * 10000 / (total as u128);
                assert(scaled == (t as nat) * 10000 / (total as nat));
                info.progress_pct_hundredths = if scaled < 9990 {
                    scaled as u32
                } else {
                    9990
                };
            }
        }
        Some(info)
    } else if key_is(&key, "progress") && key_is(&value, "end") {
        let mut info = ProgressInfo::default();
        info.progress_pct_hundredths = 10000;
        Some(info)
    } else {
        None
    }
}

/// A reported position never shows more than 99.9%, the end shows 100%,
/// and for a known duration a later position never shows less than an
/// earlier one.
pub proof fn lemma_progress_bounded_and_monotone(t1: u64, t2: u64, total: Option<u64>)
    requires
        t1 <= t2,
    ensures
        progress_pct_at(t1, total) <= 9990,
        progress_pct_at(t1, total) <= progress_pct_at(t2, total),
        progress_event_of("progress"@, "end"@, total) matches Some(e) && e.progress_pct_hundredths
            == 10000,
{
    reveal_strlit("progress");
    reveal_strlit("out_time_us");
    assert("progress"@.len() == 8);
    assert("out_time_us"@.len() == 11);
    assert("progress"@ != "out_time_us"@);
    if let Some(d) = total {
        if d > 0 {
            assert((t1 as nat) * 10000 / (d as nat) <= (t2 as nat) * 10000 / (d as nat))
                by (nonlinear_arith)
                requires
                    t1 <= t2,
                    d > 0,
            ;
        }
    }
}

/// The last 20 lines, or all of them when there are fewer.
pub open spec fn last_20(lines: Seq<Seq<char>>) -> Seq<Seq<char>> {
    if lines.len() > 20 {
        lines.skip(lines.len() - 20)
    } else {
        lines
    }
}

/// The message of a failed ffmpeg run: its exit code (-1 when it was
/// killed by a signal), the command, and the last 20 lines of its stderr.
pub open spec fn exit_failure_text(code: Option<i32>, cmd: Seq<char>, stderr: Seq<Seq<char>>) -> Seq<
    char,
> {
    "ffmpeg exited with code "@ + signed_dec(
        match code {
            Some(c) => c as int,
            None => -1,
        },
    ) + "\nCommand: "@ + cmd + "\nStderr (last 20 lines):\n"@ + join(last_20(stderr), "\n"@)
}

/// The error for an ffmpeg run that exited unsuccessfully.
pub fn exit_failure(code: Option<i32>, cmd: &str, stderr_lines: &Vec<String>) -> (e:
    MediaForgeError)
    ensures
        e matches MediaForgeError::FfmpegProcess(m) && m@ == exit_failure_text(
            code,
            cmd@,
            strs(stderr_lines@),
        ),
{
    let n = stderr_lines.len();
    let from: usize = if n > 20 {
        n - 20
    } else {
        0
    };
    let mut tail: Vec<String> = Vec::new();
    let mut i: usize = from;
    while i < n
        invariant
            from <= i <= n == stderr_lines@.len(),
            strs(tail@) == strs(stderr_lines@).subrange(from as int, i as int),
        decreases n - i,
    {
        let line = stderr_lines[i].clone();
        proof {
            crate::text::lemma_strs_push(tail@, line);
        }
        tail.push(line);
        i = i + 1;
        assert(strs(tail@) =~= strs(stderr_lines@).subrange(from as int, i as int));
    }
    assert(strs(stderr_lines@).subrange(from as int, n as int) =~= last_20(strs(stderr_lines@)));
    let c: i64 = match code {
        Some(c) => c as i64,
        None => -1,
    };
    let mut m = owned("ffmpeg exited with code ");
    m.append(int_to_string(c).as_str());
    m.append("\nCommand: ");
    m.append(cmd);
    m.append("\nStderr (last 20 lines):\n");
    m.append(join_strings(&tail, "\n").as_str());
    MediaForgeError::FfmpegProcess(m)
}

/// The progress reports that `lines` trigger, in order.
pub open spec fn reports_of(lines: Seq<Seq<char>>, total: Option<u64>) -> Seq<ProgressView>
    decreases lines.len(),
{
    if lines.len() == 0 {
        Seq::empty()
    } else {
        let r = reports_of(lines.drop_last(), total);
        match line_event_of(lines.last(), total) {
            Some(v) => r.push(v),
            None => r,
        }
    }
}

/// A run fed `lines` through [`RunMonitor::on_line`], the `i`-th read
/// while `cancelled[i]` tells whether the user had asked to stop: the lines
/// kept, the reports made, and whether it stopped. Reading ends at the
/// first line read after a cancel.
pub open spec fn run_of(lines: Seq<Seq<char>>, cancelled: Seq<bool>, total: Option<u64>) -> (
    Seq<Seq<char>>,
    Seq<ProgressView>,
    bool,
)
    decreases lines.len(),
{
    if lines.len() == 0 {
        (Seq::empty(), Seq::empty(), false)
    } else {
        let (kept, reps, stopped) = run_of(lines.drop_last(), cancelled, total);
        let i = lines.len() - 1;
        if stopped || cancelled[i] {
            (kept, reps, true)
        } else {
            (
                kept.push(lines[i]),
                match line_event_of(lines[i], total) {
                    Some(v) => reps.push(v),
                    None => reps,
                },
                false,
            )
        }
    }
}

proof fn lemma_run_before_cancel(lines: Seq<Seq<char>>, cancelled: Seq<bool>, total: Option<u64>, n: int)
    requires
        0 <= n <= lines.len(),
        forall|j: int| 0 <= j < n ==> !#[trigger] cancelled[j],
    ensures
        run_of(lines.take(n), cancelled, total) == (lines.take(n), reports_of(lines.take(n), total), false),
    decreases n,
{
    if n > 0 {
        lemma_run_before_cancel(lines, cancelled, total, n - 1);
        assert(lines.take(n).drop_last() =~= lines.take(n - 1));
        assert(!cancelled[n - 1]);
        assert(lines.take(n - 1).push(lines[n - 1]) =~= lines.take(n));
    }
}

proof fn lemma_run_after_cancel(lines: Seq<Seq<char>>, cancelled: Seq<bool>, total: Option<u64>, k: int, n: int)
    requires
        0 <= k < n <= lines.len(),
        cancelled[k],
        forall|j: int| 0 <= j < k ==> !#[trigger] cancelled[j],
    ensures
        run_of(lines.take(n), cancelled, total) == (lines.take(k), reports_of(lines.take(k), total), true),
    decreases n,
{
    assert(lines.take(n).drop_last() =~= lines.take(n - 1));
    if n == k + 1 {
        lemma_run_before_cancel(lines, cancelled, total, k);
    } else {
        lemma_run_after_cancel(lines, cancelled, total, k, n - 1);
    }
}

/// Cancelling stops a run at once: when the user has asked to stop by the
/// time line `k` is read (and not before), the run keeps and reports
/// exactly what the lines before `k` give, and nothing of line `k` or any
/// later line; with no cancel, every line is kept and reported.
pub proof fn lemma_cancel_stops_reports(
    lines: Seq<Seq<char>>,
    cancelled: Seq<bool>,
    total: Option<u64>,
    k: int,
)
    requires
        lines.len() <= cancelled.len(),
        0 <= k <= lines.len(),
        forall|j: int| 0 <= j < k ==> !#[trigger] cancelled[j],
    ensures
        k < lines.len() && cancelled[k] ==> run_of(lines, cancelled, total) == (
            lines.take(k),
            reports_of(lines.take(k), total),
            true,
        ),
        k == lines.len() ==> run_of(lines, cancelled, total) == (lines, reports_of(lines, total), false),
{
    assert(lines.take(lines.len() as int) =~= lines);
    if k < lines.len() && cancelled[k] {
        lemma_run_after_cancel(lines, cancelled, total, k, lines.len() as int);
    }
    if k == lines.len() {
        lemma_run_before_cancel(lines, cancelled, total, k);
    }
}

// ───────────────────────── watching a run ─────────────────────────

/// How long ffmpeg may stay silent on stderr before it is taken to hang.
pub const WATCHDOG_SECS: u64 = 30;

/// What the loop that reads ffmpeg's stderr does after one line.
#[derive(Debug)]
pub enum RunStep {
    /// The user cancelled: stop ffmpeg and give up with `Cancelled`.
    Cancel,
    /// Report this progress.
    Report(ProgressInfo),
    /// Nothing to report; read on.
    Continue,
}

/// The state of a running encode as its stderr is read: every line so
/// far (the last of them go into an error report), and the duration of
/// the source when it is known.
#[derive(Debug)]
pub struct RunMonitor {
    pub stderr_lines: Vec<String>,
    pub total_duration_us: Option<u64>,
}

impl RunMonitor {
    /// Nothing read yet.
    pub fn new(total_duration_us: Option<u64>) -> (m: RunMonitor)
        ensures
            m.stderr_lines@.len() == 0,
            m.total_duration_us == total_duration_us,
    {
        RunMonitor { stderr_lines: Vec::new(), total_duration_us }
    }

    /// One more line of stderr, read while `cancelled` tells whether the
    /// user has asked to stop. A cancelled run stops before the line is
    /// kept; otherwise the line is kept and reported if it moves the
    /// progress bar.
    pub fn on_line(&mut self, cancelled: bool, line: String) -> (step: RunStep)
        ensures
            final(self).total_duration_us == old(self).total_duration_us,
            cancelled ==> step is Cancel && final(self).stderr_lines == old(self).stderr_lines,
            !cancelled ==> strs(final(self).stderr_lines@) == strs(old(self).stderr_lines@).push(
                line@,
            ),
            !cancelled ==> match step {
                RunStep::Report(info) => line_event_of(line@, old(self).total_duration_us) == Some(
                    info@,
                ),
                RunStep::Continue => line_event_of(line@, old(self).total_duration_us) is None,
                RunStep::Cancel => false,
            },
    {
        if cancelled {
            return RunStep::Cancel;
        }
        let event = progress_event(line.as_str(), self.total_duration_us);
        proof {
            lemma_strs_push(self.stderr_lines@, line);
        }
        self.stderr_lines.push(line);
        match event {
            Some(info) => RunStep::Report(info),
            None => RunStep::Continue,
        }
    }

    /// How the run ends when ffmpeg has written nothing for
    /// [`WATCHDOG_SECS`] seconds: it is stopped and the run fails with a
    /// timeout.
    pub fn on_silence(&self) -> (e: MediaForgeError)
        ensures
            e == MediaForgeError::FfmpegTimeout(WATCHDOG_SECS),
    {
        MediaForgeError::FfmpegTimeout(WATCHDOG_SECS)
    }

    /// How the run ends once ffmpeg has exited: the command line when it
    /// succeeded, else the failure with its exit code and the last lines
    /// of stderr.
    pub fn finish(&self, success: bool, code: Option<i32>, cmd: String) -> (r: Result<
        String,
        MediaForgeError,
    >)
        ensures
            success ==> r == Ok::<String, MediaForgeError>(cmd),
            !success ==> (r matches Err(MediaForgeError::FfmpegProcess(m)) && m@
                == exit_failure_text(code, cmd@, strs(self.stderr_lines@))),
    {
        if success {
            Ok(cmd)
        } else {
            Err(exit_failure(code, cmd.as_str(), &self.stderr_lines))
        }
    }
}

/// The duration ffprobe printed (`format=duration`, in seconds) in
/// microseconds, as `(secs * 1e6) as u64` gives it for the `f64` that
/// `str::parse` reads: `None` when the output is not a float, such as
/// `N/A`; 0 for a negative value or NaN; `u64::MAX` for infinity or a
/// value beyond 64 bits.
pub open spec fn probe_duration_of(stdout: Seq<char>) -> Option<u64> {
    parse_float_of(trim(stdout), 6)
}

/// Reads ffprobe's `format=duration` output: `120.500000` gives
/// `120_500_000` microseconds.
pub fn parse_probe_duration(stdout: &str) -> (r: Option<u64>)
    ensures
        r == probe_duration_of(stdout@),
{
    let t = crate::text::trim_str(stdout);
    parse_float(t.as_str(), 6)
}

} // verus!
