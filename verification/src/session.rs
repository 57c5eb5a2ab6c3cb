//! The state of a desktop window and what its actions do to it: choosing a
//! preset, queueing files, confirming overwrites, taking progress events
//! from the encoder, and cancelling.
use vstd::prelude::*;

use crate::config::Config;
use crate::enums::UiMode;
use crate::ffmpeg::{command_args, command_line, command_to_string_with_ffmpeg, opt_view, program_of};
use crate::i18n::Language;
use crate::job::{
    default_params, metadata_insert, pending_jobs, EncodeParams, Job, JobQueue, JobStatus,
    ParamsView, Preset, ProgressInfo,
};
use crate::preset::{builtin_preset, builtin_presets};
use crate::text::{
    chars_of, dec, join_path, lemma_strs_push, nat_to_string, owned, path_join, strs, trim,
    trim_range,
};

verus! {

broadcast use vstd::seq_lib::group_seq_properties, Seq::lemma_filter_push;

/// The tabs of the advanced mode.
#[derive(Debug, Clone, Copy, PartialEq, Eq, Structural)]
pub enum AdvancedTab {
    Video,
    Audio,
    Filters,
    Output,
    Metadata,
}

/// What the encoder reports about a job.
#[derive(Debug)]
pub enum JobEvent {
    Progress { job_id: u128, info: ProgressInfo },
    Completed { job_id: u128 },
    Failed { job_id: u128, error: String },
}

/// The job an event is about.
pub open spec fn event_job(e: JobEvent) -> u128 {
    match e {
        JobEvent::Progress { job_id, .. } => job_id,
        JobEvent::Completed { job_id } => job_id,
        JobEvent::Failed { job_id, .. } => job_id,
    }
}

/// The status an event gives its job.
pub open spec fn event_status(e: JobEvent) -> JobStatus {
    match e {
        JobEvent::Progress { info, .. } => JobStatus::Running(info),
        JobEvent::Completed { .. } => JobStatus::Completed,
        JobEvent::Failed { error, .. } => JobStatus::Failed(error),
    }
}

/// The jobs with the first job whose id is `id` given status `st`.
pub open spec fn set_first_status(jobs: Seq<Job>, id: u128, st: JobStatus) -> Seq<Job>
    decreases jobs.len(),
{
    if jobs.len() == 0 {
        jobs
    } else if jobs[0].id == id {
        jobs.update(0, Job { status: st, ..jobs[0] })
    } else {
        seq![jobs[0]] + set_first_status(jobs.drop_first(), id, st)
    }
}

/// The jobs after the events, taken in order.
pub open spec fn apply_events(jobs: Seq<Job>, evs: Seq<JobEvent>) -> Seq<Job>
    decreases evs.len(),
{
    if evs.len() == 0 {
        jobs
    } else {
        let j = apply_events(jobs, evs.drop_last());
        set_first_status(j, event_job(evs.last()), event_status(evs.last()))
    }
}

/// Every job has finished: completed, failed or cancelled.
pub open spec fn all_finished(jobs: Seq<Job>) -> bool {
    forall|i: int|
        0 <= i < jobs.len() ==> match #[trigger] jobs[i].status {
            JobStatus::Completed | JobStatus::Failed(_) | JobStatus::Cancelled => true,
            _ => false,
        }
}

/// The number of completed jobs.
pub open spec fn completed_count(jobs: Seq<Job>) -> nat {
    jobs.filter(|j: Job| j.status is Completed).len()
}

/// The status line shown once a batch has finished.
pub open spec fn completion_text(lang: Language, completed: nat) -> Seq<char> {
    match lang {
        Language::EnUs => "Complete — "@ + dec(completed) + " file(s) processed"@,
        Language::PtBr => "Concluído — "@ + dec(completed) + " arquivo(s) processado(s)"@,
    }
}

/// The status line shown once a batch has finished.
pub fn completion_message(lang: Language, completed: usize) -> (s: String)
    ensures
        s@ == completion_text(lang, completed as nat),
{
    match lang {
        Language::EnUs => {
            let mut s = owned("Complete — ");
            s.append(nat_to_string(completed as u64).as_str());
            s.append(" file(s) processed");
            s
        },
        Language::PtBr => {
            let mut s = owned("Concluído — ");
            s.append(nat_to_string(completed as u64).as_str());
            s.append(" arquivo(s) processado(s)");
            s
        },
    }
}

/// The position of the first preset with the given id.
pub open spec fn find_preset(ps: Seq<Preset>, id: Seq<char>) -> Option<int> {
    if exists|i: int| 0 <= i < ps.len() && #[trigger] ps[i].id@ == id {
        Some(
            choose|i: int|
                0 <= i < ps.len() && ps[i].id@ == id && forall|k: int|
                    0 <= k < i ==> #[trigger] ps[k].id@ != id,
        )
    } else {
        None
    }
}

/// The parameters after choosing a preset: the preset's own, except that
/// a preset at the default 1920×1080 keeps a size the user changed.
pub open spec fn preset_applied(cur: ParamsView, p: ParamsView) -> ParamsView {
    if p.width == 1920 && p.height == 1080 && cur.width != 1920 {
        ParamsView { width: cur.width, height: cur.height, ..p }
    } else {
        p
    }
}

/// The stem of a path's file name (`Path::file_stem`), if it has one.
pub uninterp spec fn file_stem_of(p: Seq<char>) -> Option<Seq<char>>;

/// The path with its extension replaced (`Path::with_extension`).
pub uninterp spec fn with_extension_of(p: Seq<char>, ext: Seq<char>) -> Seq<char>;

/// `Path::new(p).file_stem()`. Claims that the result is a function of `p`
/// alone, named [`file_stem_of`]; which stem is taken (the name without its
/// last extension, `None` for `..` or a root) is left unsaid.
#[verifier::external_body]
fn path_file_stem(p: &str) -> (r: Option<String>)
    ensures
        match r {
            Some(s) => file_stem_of(p@) == Some(s@),
            None => file_stem_of(p@) is None,
        },
{
    std::path::Path::new(p).file_stem().map(|s| s.to_string_lossy().to_string())
}

/// No path separator (`/` or `\\`) in the text.
pub open spec fn no_separator(s: Seq<char>) -> bool {
    forall|i: int| 0 <= i < s.len() ==> #[trigger] s[i] != '/' && s[i] != '\\'
}

/// `Path::new(p).with_extension(ext)`. Claims that the result is a function
/// of the two texts alone, named [`with_extension_of`]; how the old
/// extension is found is left unsaid. `set_extension` panics on an
/// extension holding a path separator, which `requires` rules out.
#[verifier::external_body]
fn path_with_extension(p: &str, ext: &str) -> (r: String)
    requires
        no_separator(ext@),
    ensures
        r@ == with_extension_of(p@, ext@),
{
    std::path::Path::new(p).with_extension(ext).to_string_lossy().to_string()
}

/// Where a file is written: `<output dir>/export/<stem>.<extension>`.
pub open spec fn output_path_of(dir: Seq<char>, input: Seq<char>, ext: Seq<char>) -> Seq<char> {
    with_extension_of(
        path_join(
            path_join(dir, "export"@),
            match file_stem_of(input) {
                Some(s) => s,
                None => Seq::empty(),
            },
        ),
        ext,
    )
}

/// Whether a job is still to run or running.
pub open spec fn is_active(j: Job) -> bool {
    j.status is Pending || j.status is Running
}

/// The jobs after cancelling: pending and running jobs are cancelled.
pub open spec fn cancelled_jobs(jobs: Seq<Job>) -> Seq<Job> {
    jobs.map_values(
        |j: Job|
            if is_active(j) {
                Job { status: JobStatus::Cancelled, ..j }
            } else {
                j
            },
    )
}

/// Cancelling leaves no job waiting or running: every pending or running
/// job becomes cancelled with nothing else about it changed, every job
/// that had ended (completed, failed or cancelled) stays as it was, and
/// the queue keeps its length and order.
pub proof fn lemma_cancel_ends_every_active_job(jobs: Seq<Job>)
    ensures
        cancelled_jobs(jobs).len() == jobs.len(),
        forall|i: int|
            0 <= i < jobs.len() ==> !(#[trigger] cancelled_jobs(jobs)[i].status is Pending)
                && !(cancelled_jobs(jobs)[i].status is Running),
        forall|i: int|
            0 <= i < jobs.len() && (jobs[i].status is Pending || jobs[i].status is Running)
                ==> #[trigger] cancelled_jobs(jobs)[i] == (Job { status: JobStatus::Cancelled, ..jobs[i] }),
        forall|i: int|
            0 <= i < jobs.len() && !(jobs[i].status is Pending || jobs[i].status is Running)
                ==> #[trigger] cancelled_jobs(jobs)[i] == jobs[i],
{
}

/// Whether the output of the `i`-th selected file already exists (a
/// missing flag counts as not existing).
pub open spec fn flag_at(flags: Seq<bool>, i: int) -> bool {
    0 <= i < flags.len() && flags[i]
}

/// The selected files whose output does not exist yet, in order.
pub open spec fn safe_inputs(files: Seq<Seq<char>>, flags: Seq<bool>) -> Seq<Seq<char>>
    decreases files.len(),
{
    if files.len() == 0 {
        Seq::empty()
    } else {
        let r = safe_inputs(files.drop_last(), flags);
        if flag_at(flags, files.len() - 1) {
            r
        } else {
            r.push(files.last())
        }
    }
}

/// The selected files whose output exists, with that output, in order.
pub open spec fn conflicts_of(files: Seq<Seq<char>>, flags: Seq<bool>, dir: Seq<char>, ext: Seq<char>) -> Seq<
    (Seq<char>, Seq<char>),
>
    decreases files.len(),
{
    if files.len() == 0 {
        Seq::empty()
    } else {
        let r = conflicts_of(files.drop_last(), flags, dir, ext);
        if flag_at(flags, files.len() - 1) {
            r.push((files.last(), output_path_of(dir, files.last(), ext)))
        } else {
            r
        }
    }
}

/// A freshly queued job for `input` → `output` with the given parameters,
/// carrying the command line it will run as.
pub open spec fn queued_job(
    j: Job,
    input: Seq<char>,
    output: Seq<char>,
    params: ParamsView,
    program: Seq<char>,
) -> bool {
    &&& j.input_path@ == input
    &&& j.output_path@ == output
    &&& j.params@ == params
    &&& j.status is Pending
    &&& j.ffmpeg_command@ == command_line(program, command_args(params, input, output))
}

/// The character sequences of (input, output) pairs.
pub open spec fn pair_strs(v: Seq<(String, String)>) -> Seq<(Seq<char>, Seq<char>)> {
    v.map_values(|e: (String, String)| (e.0@, e.1@))
}

/// One pending job handed to the encoder.
#[derive(Debug)]
pub struct EncodeRun {
    pub job_id: u128,
    pub input_path: String,
    pub output_path: String,
    pub params: EncodeParams,
}

/// The state of a desktop window.
#[derive(Debug)]
pub struct MediaForgeApp {
    pub mode: UiMode,
    pub job_queue: JobQueue,
    pub presets: Vec<Preset>,
    pub selected_preset: String,
    pub selected_files: Vec<String>,
    pub output_dir: String,
    /// The parameters shared by the simple and advanced modes.
    pub params: EncodeParams,
    pub advanced_tab: AdvancedTab,
    /// The metadata key and value being typed, before they are added.
    pub new_meta_key: String,
    pub new_meta_val: String,
    /// The file dialog was asked for (Ctrl+O) and is still to open.
    pub pending_open_dialog: bool,
    /// The path typed by hand, for systems without a file dialog.
    pub manual_path_input: String,
    pub is_encoding: bool,
    pub ffmpeg_path: Option<String>,
    pub show_settings: bool,
    pub show_about: bool,
    pub show_overwrite_dialog: bool,
    pub status_message: String,
    /// Files whose output already exists, as (input, output), awaiting the
    /// user's decision.
    pub overwrite_files: Vec<(String, String)>,
    /// The parameters to use for them if the user confirms.
    pub overwrite_params: Option<EncodeParams>,
    pub config: Config,
    pub lang: Language,
}

/// A copy of a list of presets.
fn copy_presets(v: &Vec<Preset>) -> (r: Vec<Preset>)
    ensures
        r@.len() == v@.len(),
        forall|i: int| 0 <= i < v@.len() ==> #[trigger] r@[i]@ == v@[i]@,
{
    let mut r: Vec<Preset> = Vec::new();
    let mut i: usize = 0;
    while i < v.len()
        invariant
            i <= v@.len(),
            r@.len() == i,
            forall|k: int| 0 <= k < i ==> #[trigger] r@[k]@ == v@[k]@,
        decreases v@.len() - i,
    {
        r.push(v[i].clone());
        i = i + 1;
    }
    r
}

/// The position of the first preset with the given id.
fn position_of_preset(ps: &Vec<Preset>, id: &str) -> (r: Option<usize>)
    ensures
        match r {
            Some(i) => find_preset(ps@, id@) == Some(i as int) && i < ps@.len(),
            None => find_preset(ps@, id@) is None,
        },
{
    let mut i: usize = 0;
    while i < ps.len()
        invariant
            i <= ps@.len(),
            forall|k: int| 0 <= k < i ==> #[trigger] ps@[k].id@ != id@,
        decreases ps@.len() - i,
    {
        if ps[i].id == owned(id) {
            proof {
                let f = choose|f: int|
                    0 <= f < ps@.len() && ps@[f].id@ == id@ && forall|k: int|
                        0 <= k < f ==> #[trigger] ps@[k].id@ != id@;
                assert(0 <= f < ps@.len() && ps@[f].id@ == id@ && forall|k: int|
                    0 <= k < f ==> #[trigger] ps@[k].id@ != id@) by {
                    assert(ps@[i as int].id@ == id@);
                }
                if f < i {
                    assert(ps@[f].id@ != id@);
                }
                if f > i {
                    assert(ps@[i as int].id@ != id@);
                }
            }
            return Some(i);
        }
        i = i + 1;
    }
    None
}

/// The jobs with the first job whose id is `id` given status `st`.
fn set_status(jobs: &mut Vec<Job>, id: u128, st: JobStatus)
    ensures
        final(jobs)@ == set_first_status(old(jobs)@, id, st),
{
    let ghost j0 = jobs@;
    let mut i: usize = 0;
    while i < jobs.len() && jobs[i].id != id
        invariant
            jobs@ == j0,
            i <= j0.len(),
            forall|k: int| 0 <= k < i ==> #[trigger] j0[k].id != id,
        decreases j0.len() - i,
    {
        i = i + 1;
    }
    if i < jobs.len() {
        let mut j = jobs.remove(i);
        j.status = st;
        jobs.insert(i, j);
        proof {
            lemma_set_first_status_at(j0, id, st, i as int);
            assert(jobs@ =~= j0.update(i as int, Job { status: st, ..j0[i as int] }));
        }
    } else {
        proof {
            lemma_set_first_status_none(j0, id, st);
        }
    }
}

proof fn lemma_set_first_status_at(jobs: Seq<Job>, id: u128, st: JobStatus, i: int)
    requires
        0 <= i < jobs.len(),
        jobs[i].id == id,
        forall|k: int| 0 <= k < i ==> #[trigger] jobs[k].id != id,
    ensures
        set_first_status(jobs, id, st) == jobs.update(i, Job { status: st, ..jobs[i] }),
    decreases i,
{
    if i > 0 {
        let t = jobs.drop_first();
        assert forall|k: int| 0 <= k < i - 1 implies #[trigger] t[k].id != id by {
            assert(t[k] == jobs[k + 1]);
        }
        lemma_set_first_status_at(t, id, st, i - 1);
        assert(seq![jobs[0]] + t.update(i - 1, Job { status: st, ..t[i - 1] }) =~= jobs.update(
            i,
            Job { status: st, ..jobs[i] },
        ));
    }
}

proof fn lemma_set_first_status_none(jobs: Seq<Job>, id: u128, st: JobStatus)
    requires
        forall|k: int| 0 <= k < jobs.len() ==> #[trigger] jobs[k].id != id,
    ensures
        set_first_status(jobs, id, st) == jobs,
    decreases jobs.len(),
{
    if jobs.len() > 0 {
        let t = jobs.drop_first();
        assert forall|k: int| 0 <= k < t.len() implies #[trigger] t[k].id != id by {
            assert(t[k] == jobs[k + 1]);
        }
        lemma_set_first_status_none(t, id, st);
        assert(seq![jobs[0]] + t =~= jobs);
    }
}

impl MediaForgeApp {
    /// A fresh window: built-in presets, the `web-h264` parameters, the
    /// configured mode and output directory (else `cwd`), an empty queue.
    /// `ffmpeg_path` is the binary found for this window, if any;
    /// `status_message` the text of the ready status.
    pub fn new(config: Config, cwd: String, ffmpeg_path: Option<String>, status_message: String) -> (r:
        Self)
        ensures
            r.config == config,
            r.advanced_tab == AdvancedTab::Video,
            r.lang == config.language,
            r.mode == config.default_mode,
            r.output_dir@ == (match config.output_dir {
                Some(d) => d@,
                None => cwd@,
            }),
            r.presets@.len() == 9,
            forall|i: int| 0 <= i < 9 ==> #[trigger] r.presets@[i]@ == builtin_preset(i),
            r.selected_preset@ == "web-h264"@,
            r.params@ == builtin_preset(1).params,
            r.job_queue.jobs@.len() == 0,
            r.selected_files@.len() == 0,
            !r.is_encoding,
            r.ffmpeg_path == ffmpeg_path,
            r.status_message == status_message,
            r.overwrite_files@.len() == 0,
            r.overwrite_params is None,
            !r.show_overwrite_dialog,
            !r.show_settings,
            !r.show_about,
            !r.pending_open_dialog,
            r.new_meta_key@.len() == 0,
            r.new_meta_val@.len() == 0,
            r.manual_path_input@.len() == 0,
    {
        let presets = builtin_presets();
        let output_dir = match &config.output_dir {
            Some(d) => d.clone(),
            None => cwd,
        };
        let params = match position_of_preset(&presets, "web-h264") {
            Some(i) => presets[i].params.clone(),
            None => EncodeParams::default(),
        };
        proof {
            reveal_strlit("web-h264");
            reveal_strlit("default");
            crate::preset::lemma_builtin_presets_well_formed();
            assert(presets@[1]@ == builtin_preset(1));
            assert(presets@[1].id@ == "web-h264"@);
            assert(presets@[0].id@ != "web-h264"@) by {
                assert(presets@[0]@ == builtin_preset(0));
                assert(builtin_preset(0).id != builtin_preset(1).id);
            }
            assert(find_preset(presets@, "web-h264"@) is Some);
            let f = find_preset(presets@, "web-h264"@).unwrap();
            if f > 1 {
                assert(presets@[1].id@ != "web-h264"@);
            }
        }
        MediaForgeApp {
            mode: config.default_mode,
            job_queue: JobQueue::new(),
            presets,
            selected_preset: owned("web-h264"),
            selected_files: Vec::new(),
            output_dir,
            params,
            advanced_tab: AdvancedTab::Video,
            new_meta_key: String::new(),
            new_meta_val: String::new(),
            pending_open_dialog: false,
            manual_path_input: String::new(),
            is_encoding: false,
            ffmpeg_path,
            show_settings: false,
            show_about: false,
            show_overwrite_dialog: false,
            status_message,
            overwrite_files: Vec::new(),
            overwrite_params: None,
            lang: config.language,
            config,
        }
    }

    /// Chooses a preset by id: takes its parameters (keeping a size the user
    /// changed when the preset is at the default 1920×1080) and marks it
    /// selected. An unknown id changes nothing.
    pub fn apply_preset(&mut self, preset_id: &str)
        ensures
            *final(self) == (MediaForgeApp { params: final(self).params, selected_preset: final(self).selected_preset, ..*old(self) }),
            match find_preset(old(self).presets@, preset_id@) {
                Some(i) => final(self).params@ == preset_applied(
                    old(self).params@,
                    old(self).presets@[i].params@,
                ) && final(self).selected_preset@ == preset_id@,
                None => final(self).params@ == old(self).params@ && final(self).selected_preset
                    == old(self).selected_preset,
            },
            final(self).presets == old(self).presets,
            final(self).job_queue == old(self).job_queue,
            final(self).is_encoding == old(self).is_encoding,
    {
        if let Some(i) = position_of_preset(&self.presets, preset_id) {
            let mut new_params = self.presets[i].params.clone();
            if new_params.width == 1920 && new_params.height == 1080 && self.params.width != 1920 {
                new_params.width = self.params.width;
                new_params.height = self.params.height;
            }
            self.params = new_params;
            self.selected_preset = owned(preset_id);
        }
    }

    /// A copy of the current parameters.
    pub fn build_params(&self) -> (r: EncodeParams)
        ensures
            r@ == self.params@,
    {
        self.params.clone()
    }

    /// Takes the events the encoder has sent, in order: each sets the status
    /// of the first job with its id. When a batch was running and every job
    /// has now finished, the batch ends: the status line counts the
    /// completed jobs, and the queue and the file selection are cleared.
    pub fn drain_events(&mut self, events: Vec<JobEvent>)
        ensures
            *final(self) == (MediaForgeApp { job_queue: final(self).job_queue, is_encoding: final(self).is_encoding, status_message: final(self).status_message, selected_files: final(self).selected_files, ..*old(self) }),
            ({
                let js = apply_events(old(self).job_queue.jobs@, events@);
                if old(self).is_encoding && all_finished(js) {
                    &&& !final(self).is_encoding
                    &&& final(self).job_queue.jobs@.len() == 0
                    &&& final(self).selected_files@.len() == 0
                    &&& final(self).status_message@ == completion_text(
                        old(self).lang,
                        completed_count(js),
                    )
                } else {
                    &&& final(self).is_encoding == old(self).is_encoding
                    &&& final(self).job_queue.jobs@ == js
                    &&& final(self).selected_files == old(self).selected_files
                    &&& final(self).status_message == old(self).status_message
                }
            }),
            final(self).lang == old(self).lang,
            final(self).presets == old(self).presets,
    {
        let ghost j0 = self.job_queue.jobs@;
        let ghost evs = events@;
        let mut events = events;
        let mut rev: Vec<JobEvent> = Vec::new();
        while events.len() > 0
            invariant
                *self == (MediaForgeApp { job_queue: self.job_queue, is_encoding: self.is_encoding, status_message: self.status_message, selected_files: self.selected_files, ..*old(self) }),
                events@ + rev@.reverse() == evs,
            decreases events@.len(),
        {
            let ghost before = events@;
            let ghost r0 = rev@;
            let e = events.pop().unwrap();
            assert(before =~= events@.push(e));
            rev.push(e);
            assert(rev@.reverse() =~= seq![e] + r0.reverse());
            assert(events@ + rev@.reverse() =~= evs);
        }
        assert(rev@.reverse() =~= evs);
        while rev.len() > 0
            invariant
                *self == (MediaForgeApp { job_queue: self.job_queue, is_encoding: self.is_encoding, status_message: self.status_message, selected_files: self.selected_files, ..*old(self) }),
                self.job_queue.jobs@ == apply_events(j0, evs.take(evs.len() - rev@.len())),
                rev@.len() <= evs.len(),
                rev@.reverse() == evs.skip(evs.len() - rev@.len()),
                self.lang == old(self).lang,
                self.presets == old(self).presets,
                self.is_encoding == old(self).is_encoding,
                self.selected_files == old(self).selected_files,
                self.status_message == old(self).status_message,
            decreases rev@.len(),
        {
            let ghost k = evs.len() - rev@.len();
            let ghost before = rev@;
            let e = rev.pop().unwrap();
            assert(e == evs[k]) by {
                assert(before.reverse()[0] == before[before.len() - 1]);
                assert(evs.skip(k)[0] == evs[k]);
            }
            assert(rev@.reverse() =~= evs.skip(k + 1)) by {
                assert(before.reverse() =~= seq![e] + rev@.reverse());
            }
            assert(evs.take(k + 1).drop_last() =~= evs.take(k));
            match e {
                JobEvent::Progress { job_id, info } => {
                    set_status(&mut self.job_queue.jobs, job_id, JobStatus::Running(info));
                },
                JobEvent::Completed { job_id } => {
                    set_status(&mut self.job_queue.jobs, job_id, JobStatus::Completed);
                },
                JobEvent::Failed { job_id, error } => {
                    set_status(&mut self.job_queue.jobs, job_id, JobStatus::Failed(error));
                },
            }
        }
        assert(evs.take(evs.len() as int) =~= evs);
        if self.is_encoding {
            let mut all_done = true;
            let mut completed: usize = 0;
            let mut i: usize = 0;
            let ghost js = self.job_queue.jobs@;
            while i < self.job_queue.jobs.len()
                invariant
                    *self == (MediaForgeApp { job_queue: self.job_queue, is_encoding: self.is_encoding, status_message: self.status_message, selected_files: self.selected_files, ..*old(self) }),
                *self == (MediaForgeApp { job_queue: self.job_queue, is_encoding: self.is_encoding, status_message: self.status_message, selected_files: self.selected_files, ..*old(self) }),
                    js == self.job_queue.jobs@,
                    i <= js.len(),
                    all_done <==> all_finished(js.take(i as int)),
                    completed == js.take(i as int).filter(|j: Job| j.status is Completed).len(),
                    completed <= i,
                decreases js.len() - i,
            {
                assert(js.take(i + 1) =~= js.take(i as int).push(js[i as int]));
                match &self.job_queue.jobs[i].status {
                    JobStatus::Completed => {
                        completed = completed + 1;
                    },
                    JobStatus::Failed(_) | JobStatus::Cancelled => {},
                    _ => {
                        all_done = false;
                    },
                }
                i = i + 1;
                assert(all_done <==> all_finished(js.take(i as int))) by {
                    if all_finished(js.take(i as int)) {
                        assert forall|k: int| 0 <= k < i - 1 implies match #[trigger] js.take(
                            i - 1,
                        )[k].status {
                            JobStatus::Completed | JobStatus::Failed(_) | JobStatus::Cancelled => true,
                            _ => false,
                        } by {
                            assert(js.take(i - 1)[k] == js.take(i as int)[k]);
                        }
                        assert(js.take(i as int)[i - 1] == js[i - 1]);
                    }
                    if !all_finished(js.take(i - 1)) {
                        let k = choose|k: int|
                            0 <= k < i - 1 && !match #[trigger] js.take(i - 1)[k].status {
                                JobStatus::Completed | JobStatus::Failed(_) | JobStatus::Cancelled => true,
                                _ => false,
                            };
                        assert(js.take(i as int)[k] == js.take(i - 1)[k]);
                    }
                }
            }
            assert(js.take(js.len() as int) =~= js);
            if all_done {
                self.is_encoding = false;
                self.status_message = completion_message(self.lang, completed);
                self.job_queue.jobs.clear();
                self.selected_files.clear();
            }
        }
    }

    /// Where the output of `input` is written:
    /// `<output dir>/export/<stem>.<container extension>`.
    pub fn output_path(&self, input: &str) -> (r: String)
        ensures
            r@ == output_path_of(self.output_dir@, input@, self.params.container.extension_of()),
    {
        let ext = self.params.container.extension();
        proof {
            crate::enums::lemma_extensions_have_no_separator(self.params.container);
        }
        let stem = match path_file_stem(input) {
            Some(s) => s,
            None => String::new(),
        };
        let base = join_path(self.output_dir.as_str(), "export");
        let file = join_path(base.as_str(), stem.as_str());
        path_with_extension(file.as_str(), ext)
    }

    /// Takes the path typed by hand: when it is not blank it is added to the
    /// selection if `path_exists` (whether the trimmed path names an
    /// existing file), and the input is cleared either way.
    pub fn add_manual_path(&mut self, path_exists: bool)
        ensures
            *final(self) == (MediaForgeApp { manual_path_input: final(self).manual_path_input, selected_files: final(self).selected_files, ..*old(self) }),
            ({
                let p = trim(old(self).manual_path_input@);
                if p.len() > 0 {
                    &&& final(self).manual_path_input@.len() == 0
                    &&& if path_exists {
                        crate::text::strs(final(self).selected_files@) == crate::text::strs(
                            old(self).selected_files@,
                        ).push(p)
                    } else {
                        final(self).selected_files == old(self).selected_files
                    }
                } else {
                    final(self).manual_path_input == old(self).manual_path_input
                        && final(self).selected_files == old(self).selected_files
                }
            }),
    {
        let v = chars_of(self.manual_path_input.as_str());
        assert(v@.subrange(0, v@.len() as int) =~= v@);
        let path = trim_range(&v, 0, v.len());
        let n = path.as_str().unicode_len();
        if n > 0 {
            if path_exists {
                proof {
                    crate::text::lemma_strs_push(self.selected_files@, path);
                }
                self.selected_files.push(path);
            }
            self.manual_path_input = String::new();
        }
    }

    /// Stops the batch: pending and running jobs are marked cancelled.
    pub fn cancel_encoding(&mut self)
        ensures
            *final(self) == (MediaForgeApp { job_queue: final(self).job_queue, is_encoding: false, ..*old(self) }),
            !final(self).is_encoding,
            final(self).job_queue.jobs@ == cancelled_jobs(old(self).job_queue.jobs@),
            forall|i: int|
                0 <= i < final(self).job_queue.jobs@.len() ==> !(
                #[trigger] final(self).job_queue.jobs@[i].status is Pending)
                    && !(final(self).job_queue.jobs@[i].status is Running),
    {
        proof {
            lemma_cancel_ends_every_active_job(self.job_queue.jobs@);
        }
        let ghost j0 = self.job_queue.jobs@;
        let mut i: usize = 0;
        while i < self.job_queue.jobs.len()
            invariant
                *self == (MediaForgeApp { job_queue: self.job_queue, ..*old(self) }),
                self.job_queue.jobs@.len() == j0.len(),
                i <= j0.len(),
                forall|k: int|
                    0 <= k < i ==> #[trigger] self.job_queue.jobs@[k] == cancelled_jobs(j0)[k],
                forall|k: int| i <= k < j0.len() ==> #[trigger] self.job_queue.jobs@[k] == j0[k],
            decreases j0.len() - i,
        {
            let active = match &self.job_queue.jobs[i].status {
                JobStatus::Pending | JobStatus::Running(_) => true,
                _ => false,
            };
            if active {
                let mut j = self.job_queue.jobs.remove(i);
                j.status = JobStatus::Cancelled;
                self.job_queue.jobs.insert(i, j);
            }
            i = i + 1;
        }
        assert(self.job_queue.jobs@ =~= cancelled_jobs(j0));
        self.is_encoding = false;
    }

    /// A queued job for `input` → `output`, with its command line.
    fn make_job(&self, input: String, output: String, params: &EncodeParams) -> (j: Job)
        ensures
            queued_job(j, input@, output@, params@, program_of(opt_view_string(self.ffmpeg_path))),
    {
        let cmd = match &self.ffmpeg_path {
            Some(p) => command_to_string_with_ffmpeg(params, input.as_str(), output.as_str(), Some(p.as_str())),
            None => command_to_string_with_ffmpeg(params, input.as_str(), output.as_str(), None),
        };
        let mut job = Job::new(input, output, params.clone());
        job.ffmpeg_command = cmd;
        job
    }

    /// "Add to queue": the selected files are taken out of the selection;
    /// those whose output does not exist yet (`output_exists[i]` false or
    /// missing) are queued with the current parameters; the others await
    /// the user's decision in the overwrite dialog.
    pub fn add_to_queue(&mut self, output_exists: &Vec<bool>)
        ensures
            *final(self) == (MediaForgeApp { selected_files: final(self).selected_files, job_queue: final(self).job_queue, overwrite_files: final(self).overwrite_files, overwrite_params: final(self).overwrite_params, show_overwrite_dialog: final(self).show_overwrite_dialog, ..*old(self) }),
            ({
                let files = strs(old(self).selected_files@);
                let safe = safe_inputs(files, output_exists@);
                let conf = conflicts_of(
                    files,
                    output_exists@,
                    old(self).output_dir@,
                    old(self).params.container.extension_of(),
                );
                let n0 = old(self).job_queue.jobs@.len();
                &&& final(self).selected_files@.len() == 0
                &&& final(self).job_queue.jobs@.len() == n0 + safe.len()
                &&& forall|k: int| 0 <= k < n0 ==> #[trigger] final(self).job_queue.jobs@[k] == old(
                    self,
                ).job_queue.jobs@[k]
                &&& forall|k: int|
                    0 <= k < safe.len() ==> queued_job(
                        #[trigger] final(self).job_queue.jobs@[n0 + k],
                        safe[k],
                        output_path_of(
                            old(self).output_dir@,
                            safe[k],
                            old(self).params.container.extension_of(),
                        ),
                        old(self).params@,
                        program_of(opt_view_string(old(self).ffmpeg_path)),
                    )
                &&& if conf.len() > 0 {
                    &&& pair_strs(final(self).overwrite_files@) == conf
                    &&& final(self).overwrite_params matches Some(p) && p@ == old(self).params@
                    &&& final(self).show_overwrite_dialog
                } else {
                    &&& final(self).overwrite_files == old(self).overwrite_files
                    &&& final(self).overwrite_params == old(self).overwrite_params
                    &&& final(self).show_overwrite_dialog == old(self).show_overwrite_dialog
                }
            }),
            final(self).params == old(self).params,
            final(self).output_dir == old(self).output_dir,
            final(self).ffmpeg_path == old(self).ffmpeg_path,
    {
        let ghost files = strs(self.selected_files@);
        let ghost flags = output_exists@;
        let ghost dir = self.output_dir@;
        let ghost ext = self.params.container.extension_of();
        let ghost n0 = self.job_queue.jobs@.len();
        let ghost old_jobs = self.job_queue.jobs@;
        let ghost program = program_of(opt_view_string(self.ffmpeg_path));
        let params = self.params.clone();
        let mut all_files: Vec<String> = Vec::new();
        std::mem::swap(&mut all_files, &mut self.selected_files);
        let mut conflicts: Vec<(String, String)> = Vec::new();
        let mut i: usize = 0;
        while i < all_files.len()
            invariant
                *self == (MediaForgeApp { selected_files: self.selected_files, job_queue: self.job_queue, overwrite_files: self.overwrite_files, overwrite_params: self.overwrite_params, show_overwrite_dialog: self.show_overwrite_dialog, ..*old(self) }),
                i <= all_files@.len(),
                files == strs(all_files@),
                flags == output_exists@,
                dir == self.output_dir@,
                ext == self.params.container.extension_of(),
                params@ == self.params@,
                program == program_of(opt_view_string(self.ffmpeg_path)),
                self.job_queue.jobs@.len() == n0 + safe_inputs(files.take(i as int), flags).len(),
                forall|k: int| 0 <= k < n0 ==> #[trigger] self.job_queue.jobs@[k] == old_jobs[k],
                forall|k: int|
                    0 <= k < safe_inputs(files.take(i as int), flags).len() ==> queued_job(
                        #[trigger] self.job_queue.jobs@[n0 + k],
                        safe_inputs(files.take(i as int), flags)[k],
                        output_path_of(dir, safe_inputs(files.take(i as int), flags)[k], ext),
                        params@,
                        program,
                    ),
                pair_strs(conflicts@) == conflicts_of(files.take(i as int), flags, dir, ext),
                self.selected_files@.len() == 0,
                self.params == old(self).params,
                self.output_dir == old(self).output_dir,
                self.ffmpeg_path == old(self).ffmpeg_path,
                self.overwrite_files == old(self).overwrite_files,
                self.overwrite_params == old(self).overwrite_params,
                self.show_overwrite_dialog == old(self).show_overwrite_dialog,
            decreases all_files@.len() - i,
        {
            assert(files.take(i + 1).drop_last() =~= files.take(i as int));
            assert(files.take(i + 1).last() == all_files@[i as int]@);
            let ghost safe0 = safe_inputs(files.take(i as int), flags);
            let file = all_files[i].clone();
            let output = self.output_path(file.as_str());
            let exists = i < output_exists.len() && output_exists[i];
            if exists {
                let ghost c0 = conflicts@;
                conflicts.push((file, output));
                assert(pair_strs(conflicts@) =~= pair_strs(c0).push((file@, output@)));
            } else {
                let job = self.make_job(file, output, &params);
                self.job_queue.jobs.push(job);
                assert(safe_inputs(files.take(i + 1), flags) =~= safe0.push(file@));
                assert forall|k: int|
                    0 <= k < safe_inputs(files.take(i + 1), flags).len() implies queued_job(
                    #[trigger] self.job_queue.jobs@[n0 + k],
                    safe_inputs(files.take(i + 1), flags)[k],
                    output_path_of(dir, safe_inputs(files.take(i + 1), flags)[k], ext),
                    params@,
                    program,
                ) by {
                    if k < safe0.len() {
                        assert(self.job_queue.jobs@[n0 + k] == self.job_queue.jobs@.drop_last()[n0 + k]);
                    }
                }
            }
            i = i + 1;
        }
        assert(files.take(all_files@.len() as int) =~= files);
        if conflicts.len() > 0 {
            self.overwrite_files = conflicts;
            self.overwrite_params = Some(params);
            self.show_overwrite_dialog = true;
        }
    }

    /// The user confirmed the overwrite: every awaiting file is queued with
    /// the awaiting parameters (the defaults if there are none), and the
    /// dialog closes.
    pub fn confirm_overwrite(&mut self)
        ensures
            *final(self) == (MediaForgeApp { job_queue: final(self).job_queue, overwrite_files: final(self).overwrite_files, overwrite_params: None, show_overwrite_dialog: false, ..*old(self) }),
            ({
                let pending = pair_strs(old(self).overwrite_files@);
                let params = match old(self).overwrite_params {
                    Some(p) => p@,
                    None => default_params(),
                };
                let n0 = old(self).job_queue.jobs@.len();
                &&& final(self).job_queue.jobs@.len() == n0 + pending.len()
                &&& forall|k: int| 0 <= k < n0 ==> #[trigger] final(self).job_queue.jobs@[k] == old(
                    self,
                ).job_queue.jobs@[k]
                &&& forall|k: int|
                    0 <= k < pending.len() ==> queued_job(
                        #[trigger] final(self).job_queue.jobs@[n0 + k],
                        pending[k].0,
                        pending[k].1,
                        params,
                        program_of(opt_view_string(old(self).ffmpeg_path)),
                    )
            }),
            final(self).overwrite_files@.len() == 0,
            final(self).overwrite_params is None,
            !final(self).show_overwrite_dialog,
    {
        let ghost pending = pair_strs(self.overwrite_files@);
        let ghost n0 = self.job_queue.jobs@.len();
        let ghost old_jobs = self.job_queue.jobs@;
        let ghost program = program_of(opt_view_string(self.ffmpeg_path));
        let mut taken: Option<EncodeParams> = None;
        std::mem::swap(&mut taken, &mut self.overwrite_params);
        let params = match taken {
            Some(p) => p,
            None => EncodeParams::default(),
        };
        let mut files: Vec<(String, String)> = Vec::new();
        std::mem::swap(&mut files, &mut self.overwrite_files);
        let mut i: usize = 0;
        while i < files.len()
            invariant
                *self == (MediaForgeApp { job_queue: self.job_queue, overwrite_files: self.overwrite_files, overwrite_params: self.overwrite_params, show_overwrite_dialog: self.show_overwrite_dialog, ..*old(self) }),
                i <= files@.len(),
                pending == pair_strs(files@),
                program == program_of(opt_view_string(self.ffmpeg_path)),
                self.job_queue.jobs@.len() == n0 + i,
                forall|k: int| 0 <= k < n0 ==> #[trigger] self.job_queue.jobs@[k] == old_jobs[k],
                forall|k: int|
                    0 <= k < i ==> queued_job(
                        #[trigger] self.job_queue.jobs@[n0 + k],
                        pending[k].0,
                        pending[k].1,
                        params@,
                        program,
                    ),
                self.overwrite_files@.len() == 0,
                self.overwrite_params is None,
            decreases files@.len() - i,
        {
            let input = files[i].0.clone();
            let output = files[i].1.clone();
            assert(pending[i as int] == (input@, output@));
            let job = self.make_job(input, output, &params);
            self.job_queue.jobs.push(job);
            i = i + 1;
        }
        self.show_overwrite_dialog = false;
    }

    /// Starts the batch: marks the window as encoding with the given status
    /// text, and hands out the pending jobs, in queue order, for the
    /// encoder to run.
    pub fn start_encoding(&mut self, status_message: String) -> (runs: Vec<EncodeRun>)
        ensures
            *final(self) == (MediaForgeApp { is_encoding: true, status_message: status_message, ..*old(self) }),
            final(self).is_encoding,
            final(self).status_message == status_message,
            final(self).job_queue == old(self).job_queue,
            runs@.len() == pending_jobs(old(self).job_queue.jobs@).len(),
            forall|k: int|
                0 <= k < runs@.len() ==> {
                    let j = #[trigger] pending_jobs(old(self).job_queue.jobs@)[k];
                    &&& runs@[k].job_id == j.id
                    &&& runs@[k].input_path == j.input_path
                    &&& runs@[k].output_path == j.output_path
                    &&& runs@[k].params@ == j.params@
                },
    {
        self.is_encoding = true;
        self.status_message = status_message;
        let ghost js = self.job_queue.jobs@;
        let mut runs: Vec<EncodeRun> = Vec::new();
        let mut i: usize = 0;
        while i < self.job_queue.jobs.len()
            invariant
                js == self.job_queue.jobs@,
                self.job_queue == old(self).job_queue,
                self.is_encoding,
                self.status_message == status_message,
                i <= js.len(),
                runs@.len() == pending_jobs(js.take(i as int)).len(),
                forall|k: int|
                    0 <= k < runs@.len() ==> {
                        let j = #[trigger] pending_jobs(js.take(i as int))[k];
                        &&& runs@[k].job_id == j.id
                        &&& runs@[k].input_path == j.input_path
                        &&& runs@[k].output_path == j.output_path
                        &&& runs@[k].params@ == j.params@
                    },
            decreases js.len() - i,
        {
            assert(js.take(i + 1) =~= js.take(i as int).push(js[i as int]));
            let job = &self.job_queue.jobs[i];
            if matches!(job.status, JobStatus::Pending) {
                runs.push(
                    EncodeRun {
                        job_id: job.id,
                        input_path: job.input_path.clone(),
                        output_path: job.output_path.clone(),
                        params: job.params.clone(),
                    },
                );
            }
            i = i + 1;
        }
        assert(js.take(js.len() as int) =~= js);
        runs
    }

    /// The "add" button of the metadata tab: with a key typed, sets that
    /// entry to the typed value and clears both fields; without a key,
    /// nothing happens.
    pub fn add_metadata_entry(&mut self)
        ensures
            *final(self) == (MediaForgeApp { params: final(self).params, new_meta_key: final(self).new_meta_key, new_meta_val: final(self).new_meta_val, ..*old(self) }),
            if old(self).new_meta_key@.len() > 0 {
                &&& final(self).params@ == (ParamsView {
                    metadata: metadata_insert(
                        old(self).params@.metadata,
                        old(self).new_meta_key@,
                        old(self).new_meta_val@,
                    ),
                    ..old(self).params@
                })
                &&& final(self).new_meta_key@.len() == 0
                &&& final(self).new_meta_val@.len() == 0
            } else {
                &&& final(self).params == old(self).params
                &&& final(self).new_meta_key == old(self).new_meta_key
                &&& final(self).new_meta_val == old(self).new_meta_val
            },
            final(self).job_queue == old(self).job_queue,
            final(self).selected_files == old(self).selected_files,
    {
        if self.new_meta_key.unicode_len() > 0 {
            self.params.insert_metadata(self.new_meta_key.as_str(), self.new_meta_val.as_str());
            self.new_meta_key = String::new();
            self.new_meta_val = String::new();
        }
    }

    /// The user declined the overwrite: the awaiting files are dropped and
    /// the dialog closes.
    pub fn decline_overwrite(&mut self)
        ensures
            *final(self) == (MediaForgeApp { overwrite_files: final(self).overwrite_files, overwrite_params: None, show_overwrite_dialog: false, ..*old(self) }),
            !final(self).show_overwrite_dialog,
            final(self).overwrite_files@.len() == 0,
            final(self).overwrite_params is None,
            final(self).job_queue == old(self).job_queue,
            final(self).selected_files == old(self).selected_files,
    {
        self.show_overwrite_dialog = false;
        self.overwrite_files = Vec::new();
        self.overwrite_params = None;
    }

    /// Files dropped on the window join the selection, unless a batch is
    /// running.
    pub fn add_dropped_files(&mut self, files: Vec<String>)
        ensures
            *final(self) == (MediaForgeApp { selected_files: final(self).selected_files, ..*old(self) }),
            final(self).selected_files@ == if old(self).is_encoding {
                old(self).selected_files@
            } else {
                old(self).selected_files@ + files@
            },
            final(self).job_queue == old(self).job_queue,
            final(self).is_encoding == old(self).is_encoding,
    {
        if !self.is_encoding {
            let mut files = files;
            self.selected_files.append(&mut files);
        }
    }

    /// Whether "Add to queue" is enabled: files are selected and no batch
    /// is running.
    pub fn can_add_to_queue(&self) -> (b: bool)
        ensures
            b == (self.selected_files@.len() > 0 && !self.is_encoding),
    {
        self.selected_files.len() > 0 && !self.is_encoding
    }

    /// Whether "Start" (or Ctrl+Enter) may start a batch: jobs are queued and
    /// none is running.
    pub fn can_start_encoding(&self) -> (b: bool)
        ensures
            b == (self.job_queue.jobs@.len() > 0 && !self.is_encoding),
    {
        self.job_queue.jobs.len() > 0 && !self.is_encoding
    }

    /// The ffmpeg path field of the settings: empty text means detect it.
    pub fn set_ffmpeg_path_text(&mut self, text: String)
        ensures
            *final(self) == (MediaForgeApp { config: final(self).config, ..*old(self) }),
            match final(self).config.ffmpeg_path {
                Some(p) => text@.len() > 0 && p@ == text@,
                None => text@.len() == 0,
            },
            final(self).config.language == old(self).config.language,
            final(self).config.theme == old(self).config.theme,
            final(self).config.default_mode == old(self).config.default_mode,
            final(self).config.output_dir == old(self).config.output_dir,
            final(self).config.default_preset == old(self).config.default_preset,
            final(self).config.parallel_jobs == old(self).config.parallel_jobs,
    {
        self.config.ffmpeg_path = if text.unicode_len() > 0 {
            Some(text)
        } else {
            None
        };
    }

    /// "Cancel" in the settings: a language chosen but not saved is undone
    /// and the settings close.
    pub fn cancel_settings(&mut self)
        ensures
            *final(self) == (MediaForgeApp { lang: old(self).config.language, show_settings: false, ..*old(self) }),
            final(self).lang == old(self).config.language,
            !final(self).show_settings,
            final(self).config == old(self).config,
    {
        self.lang = self.config.language;
        self.show_settings = false;
    }

    /// One frame of the window, without its drawing: the encoder's events
    /// are taken; files dropped on the window join the selection unless a
    /// batch is still running; Ctrl+O asks for the file dialog;
    /// Ctrl+Enter (`start`) starts the queued jobs when none is running;
    /// Escape (`cancel`) stops a running batch. The dialog asked for, now
    /// or in an earlier frame, is handed out to be opened (`open`), and no
    /// longer pending; `runs` holds the jobs to run when a batch started.
    pub fn frame(
        &mut self,
        events: Vec<JobEvent>,
        dropped: Vec<String>,
        open_files: bool,
        start: bool,
        cancel: bool,
        encoding_status: String,
    ) -> (r: (Option<Vec<EncodeRun>>, bool))
        ensures
            ({
                let e = drained_encoding(*old(self), events@);
                let js = drained_jobs(*old(self), events@);
                let starts = start && js.len() > 0 && !e;
                let cancels = cancel && (e || starts);
                &&& final(self).selected_files@ == if e {
                    drained_files(*old(self), events@)
                } else {
                    drained_files(*old(self), events@) + dropped@
                }
                &&& final(self).is_encoding == ((e || starts) && !cancels)
                &&& final(self).job_queue.jobs@ == if cancels {
                    cancelled_jobs(js)
                } else {
                    js
                }
                &&& match r.0 {
                    Some(runs) => starts && runs@.len() == pending_jobs(js).len() && forall|k: int|
                        0 <= k < runs@.len() ==> {
                            let j = #[trigger] pending_jobs(js)[k];
                            &&& runs@[k].job_id == j.id
                            &&& runs@[k].input_path == j.input_path
                            &&& runs@[k].output_path == j.output_path
                            &&& runs@[k].params@ == j.params@
                        },
                    None => !starts,
                }
            }),
            *final(self) == (MediaForgeApp {
                selected_files: final(self).selected_files,
                is_encoding: final(self).is_encoding,
                job_queue: final(self).job_queue,
                status_message: final(self).status_message,
                pending_open_dialog: false,
                ..*old(self)
            }),
            final(self).status_message@ == if start && drained_jobs(*old(self), events@).len() > 0
                && !drained_encoding(*old(self), events@) {
                encoding_status@
            } else if batch_ends(*old(self), events@) {
                completion_text(
                    old(self).lang,
                    completed_count(apply_events(old(self).job_queue.jobs@, events@)),
                )
            } else {
                old(self).status_message@
            },
            !final(self).pending_open_dialog,
            r.1 == (open_files || old(self).pending_open_dialog),
            final(self).params == old(self).params,
            final(self).presets == old(self).presets,
            final(self).output_dir == old(self).output_dir,
    {
        self.drain_events(events);
        self.add_dropped_files(dropped);
        if open_files {
            self.pending_open_dialog = true;
        }
        let mut runs: Option<Vec<EncodeRun>> = None;
        if start && self.can_start_encoding() {
            runs = Some(self.start_encoding(encoding_status));
        }
        if cancel && self.is_encoding {
            self.cancel_encoding();
        }
        let open = self.pending_open_dialog;
        self.pending_open_dialog = false;
        (runs, open)
    }
}

/// Whether a batch is still running once the events are taken.
pub open spec fn drained_encoding(app: MediaForgeApp, events: Seq<JobEvent>) -> bool {
    app.is_encoding && !all_finished(apply_events(app.job_queue.jobs@, events))
}

/// Whether the events end the running batch.
pub open spec fn batch_ends(app: MediaForgeApp, events: Seq<JobEvent>) -> bool {
    app.is_encoding && all_finished(apply_events(app.job_queue.jobs@, events))
}

/// The jobs once the events are taken: none when the batch ended.
pub open spec fn drained_jobs(app: MediaForgeApp, events: Seq<JobEvent>) -> Seq<Job> {
    if batch_ends(app, events) {
        Seq::empty()
    } else {
        apply_events(app.job_queue.jobs@, events)
    }
}

/// The selected files once the events are taken: none when the batch
/// ended.
pub open spec fn drained_files(app: MediaForgeApp, events: Seq<JobEvent>) -> Seq<String> {
    if batch_ends(app, events) {
        Seq::empty()
    } else {
        app.selected_files@
    }
}

/// The view of an optional owned string.
pub open spec fn opt_view_string(o: Option<String>) -> Option<Seq<char>> {
    match o {
        Some(s) => Some(s@),
        None => None,
    }
}

} // verus!
