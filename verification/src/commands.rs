//! What the desktop shell's commands decide: the preset catalogue with
//! custom presets, validation of a batch before encoding, the command
//! preview, and the bounded job history.
use vstd::prelude::*;

use crate::error::MediaForgeError;
use crate::ffmpeg::{command_args, command_line, command_to_string, program_of};
use crate::job::{is_uuid_v4, EncodeParams, Job, ParamsView, Preset, PresetView};
use crate::session::EncodeRun;
use crate::preset::{builtin_preset, builtin_presets, is_builtin_id, builtin_ids};
use crate::text::owned;
use crate::enums::VideoCodec;

verus! {

broadcast use vstd::seq_lib::group_seq_properties, Seq::lemma_filter_push;

// ───────────────────────── presets ─────────────────────────

/// The values of a list of presets.
pub open spec fn presets_view(v: Seq<Preset>) -> Seq<PresetView> {
    v.map_values(|p: Preset| p@)
}

/// The built-in presets, in order.
pub open spec fn builtin_presets_view() -> Seq<PresetView> {
    Seq::new(9, |i: int| builtin_preset(i))
}

/// The presets without those whose id is `id`.
pub open spec fn presets_without(v: Seq<PresetView>, id: Seq<char>) -> Seq<PresetView> {
    v.filter(|p: PresetView| p.id != id)
}

/// The custom presets after saving `p`: any earlier preset with its id is
/// replaced, and `p` goes last.
pub open spec fn custom_after_create(custom: Seq<PresetView>, p: PresetView) -> Seq<PresetView> {
    presets_without(custom, p.id).push(p)
}

proof fn lemma_presets_view_push(v: Seq<Preset>, p: Preset)
    ensures
        presets_view(v.push(p)) == presets_view(v).push(p@),
{
    assert(presets_view(v.push(p)) =~= presets_view(v).push(p@));
}

/// Copies of the presets whose id is not `id`, in order.
fn presets_without_id(custom: &Vec<Preset>, id: &str) -> (r: Vec<Preset>)
    ensures
        presets_view(r@) == presets_without(presets_view(custom@), id@),
{
    let ghost cv = presets_view(custom@);
    let mut r: Vec<Preset> = Vec::new();
    let mut i: usize = 0;
    while i < custom.len()
        invariant
            i <= custom@.len(),
            cv == presets_view(custom@),
            presets_view(r@) == presets_without(cv.take(i as int), id@),
        decreases custom@.len() - i,
    {
        assert(cv.take(i + 1) =~= cv.take(i as int).push(cv[i as int]));
        assert(cv[i as int] == custom@[i as int]@);
        let same = custom[i].id == owned(id);
        if !same {
            let p = custom[i].clone();
            proof {
                lemma_presets_view_push(r@, p);
            }
            r.push(p);
        }
        i = i + 1;
    }
    assert(cv.take(custom@.len() as int) =~= cv);
    r
}

/// Whether `id` is the id of a built-in preset.
pub fn is_builtin_preset_id(id: &str) -> (b: bool)
    ensures
        b == is_builtin_id(id@),
{
    let builtin = builtin_presets();
    let mut i: usize = 0;
    while i < builtin.len()
        invariant
            i <= builtin@.len() == 9,
            forall|j: int| 0 <= j < 9 ==> #[trigger] builtin@[j]@ == builtin_preset(j),
            forall|j: int| 0 <= j < i ==> builtin_ids()[j] != id@,
        decreases builtin@.len() - i,
    {
        assert(builtin@[i as int]@ == builtin_preset(i as int));
        if builtin[i].id == owned(id) {
            assert(builtin_ids()[i as int] == id@);
            return true;
        }
        i = i + 1;
    }
    proof {
        if builtin_ids().contains(id@) {
            let j = choose|j: int| 0 <= j < builtin_ids().len() && builtin_ids()[j] == id@;
            assert(builtin_ids()[j] != id@);
        }
    }
    false
}

/// All presets: the built-in ones, then the custom ones.
pub fn get_presets(custom: Vec<Preset>) -> (r: Vec<Preset>)
    ensures
        presets_view(r@) == builtin_presets_view() + presets_view(custom@),
{
    let mut r = builtin_presets();
    assert(presets_view(r@) =~= builtin_presets_view());
    let mut custom = custom;
    let ghost cv = presets_view(custom@);
    let mut tail: Vec<Preset> = Vec::new();
    // Move the custom presets over, keeping their order.
    while custom.len() > 0
        invariant
            presets_view(tail@) + presets_view(custom@).reverse() =~= cv.reverse(),
        decreases custom@.len(),
    {
        let ghost before = custom@;
        let p = custom.pop().unwrap();
        assert(before =~= custom@.push(p));
        proof {
            lemma_presets_view_push(custom@, p);
            lemma_presets_view_push(tail@, p);
            assert(presets_view(before).reverse() =~= seq![p@] + presets_view(custom@).reverse());
        }
        tail.push(p);
    }
    assert(presets_view(tail@) =~= cv.reverse());
    while tail.len() > 0
        invariant
            presets_view(r@) + presets_view(tail@).reverse() =~= builtin_presets_view() + cv,
        decreases tail@.len(),
    {
        let ghost before = tail@;
        let p = tail.pop().unwrap();
        assert(before =~= tail@.push(p));
        proof {
            lemma_presets_view_push(tail@, p);
            lemma_presets_view_push(r@, p);
            assert(presets_view(before).reverse() =~= seq![p@] + presets_view(tail@).reverse());
        }
        r.push(p);
    }
    assert(presets_view(tail@).reverse() =~= Seq::<PresetView>::empty());
    r
}

/// The text of a refusal that names a preset id.
fn refusal(prefix: &str, id: &str) -> (m: String)
    ensures
        m@ == prefix@ + id@ + "'"@,
{
    let mut m = owned(prefix);
    m.append(id);
    m.append("'");
    m
}

/// Saves a custom preset into the list of custom presets: refused for the
/// id of a built-in preset; otherwise any custom preset with the same id
/// is replaced and the new one goes last.
pub fn create_preset(custom: &Vec<Preset>, preset: Preset) -> (r: Result<Vec<Preset>, String>)
    ensures
        match r {
            Ok(v) => !is_builtin_id(preset.id@) && presets_view(v@) == custom_after_create(
                presets_view(custom@),
                preset@,
            ),
            Err(m) => is_builtin_id(preset.id@) && m@ == "Cannot overwrite built-in preset '"@
                + preset.id@ + "'"@,
        },
{
    if is_builtin_preset_id(preset.id.as_str()) {
        return Err(refusal("Cannot overwrite built-in preset '", preset.id.as_str()));
    }
    let mut kept = presets_without_id(custom, preset.id.as_str());
    proof {
        lemma_presets_view_push(kept@, preset);
    }
    kept.push(preset);
    Ok(kept)
}

/// Deletes a custom preset: refused for the id of a built-in preset;
/// otherwise every custom preset with that id goes.
pub fn delete_preset(custom: &Vec<Preset>, id: &str) -> (r: Result<Vec<Preset>, String>)
    ensures
        match r {
            Ok(v) => !is_builtin_id(id@) && presets_view(v@) == presets_without(
                presets_view(custom@),
                id@,
            ),
            Err(m) => is_builtin_id(id@) && m@ == "Cannot delete built-in preset '"@ + id@ + "'"@,
        },
{
    if is_builtin_preset_id(id) {
        return Err(refusal("Cannot delete built-in preset '", id));
    }
    Ok(presets_without_id(custom, id))
}

proof fn lemma_filter_idempotent(v: Seq<PresetView>, id: Seq<char>)
    ensures
        presets_without(presets_without(v, id), id) == presets_without(v, id),
    decreases v.len(),
{
    if v.len() > 0 {
        let w = v.drop_last();
        assert(v =~= w.push(v.last()));
        lemma_filter_idempotent(w, id);
        if v.last().id != id {
            assert(presets_without(v, id) == presets_without(w, id).push(v.last()));
        }
    }
}

/// Deleting a preset just saved leaves the other custom presets as they
/// were, and saving a preset leaves exactly one custom preset with its id:
/// itself, last.
pub proof fn lemma_create_then_delete(custom: Seq<PresetView>, p: PresetView)
    ensures
        presets_without(custom_after_create(custom, p), p.id) == presets_without(custom, p.id),
        custom_after_create(custom, p).last() == p,
        forall|i: int|
            0 <= i < custom_after_create(custom, p).len() - 1 ==> (#[trigger] custom_after_create(
                custom,
                p,
            )[i]).id != p.id,
{
    let w = presets_without(custom, p.id);
    lemma_filter_idempotent(custom, p.id);
    assert(presets_without(w.push(p), p.id) == presets_without(w, p.id));
    assert forall|i: int| 0 <= i < custom_after_create(custom, p).len() - 1 implies (
    #[trigger] custom_after_create(custom, p)[i]).id != p.id by {
        assert(custom_after_create(custom, p)[i] == w[i]);
        custom.lemma_filter_pred(|q: PresetView| q.id != p.id, i);
    }
}

/// The command shown as a preview, for a dummy `input.mp4` → `output.mp4`.
pub fn build_command_preview(params: &EncodeParams) -> (s: String)
    ensures
        s@ == command_line(program_of(None), command_args(params@, "input.mp4"@, "output.mp4"@)),
{
    command_to_string(params, "input.mp4", "output.mp4")
}

// ───────────────────────── batch validation ─────────────────────────

/// One job of a batch as the interface sends it.
#[derive(Debug)]
pub struct JobData {
    pub input_path: String,
    pub output_path: String,
    pub params: EncodeParams,
}

/// Whether two paths name the same file by `Path`'s equality, which
/// compares path components.
pub uninterp spec fn paths_equal(a: Seq<char>, b: Seq<char>) -> bool;

/// `Path::new(a) == Path::new(b)`. Claims that the answer is a function of
/// the two texts alone, named [`paths_equal`], and that identical texts are
/// equal paths; how components are compared (`a//b` and `a/b` are equal)
/// is left unsaid.
#[verifier::external_body]
fn same_path(a: &str, b: &str) -> (r: bool)
    ensures
        r == paths_equal(a@, b@),
        a@ == b@ ==> r,
{
    std::path::Path::new(a) == std::path::Path::new(b)
}

/// A job that would overwrite its own source.
pub open spec fn overwrites_source(j: JobData) -> bool {
    paths_equal(j.input_path@, j.output_path@)
}

/// A job that re-encodes video with neither a CRF nor a bitrate.
pub open spec fn lacks_rate_control(p: ParamsView) -> bool {
    p.video_codec != VideoCodec::Copy && p.crf is None && p.video_bitrate is None
}

/// The position of the first job that would overwrite its source.
pub open spec fn first_overwrite(jobs: Seq<JobData>) -> int {
    choose|i: int|
        0 <= i < jobs.len() && overwrites_source(jobs[i]) && forall|k: int|
            0 <= k < i ==> !overwrites_source(#[trigger] jobs[k])
}

/// No built-in preset is refused for lack of rate control: each sets a CRF
/// or a bitrate, or (the GIF) copies the video stream.
pub proof fn lemma_builtin_presets_have_rate_control()
    ensures
        forall|i: int| 0 <= i < 9 ==> !lacks_rate_control(#[trigger] builtin_preset(i).params),
{
    assert forall|i: int| 0 <= i < 9 implies !lacks_rate_control(
        #[trigger] builtin_preset(i).params,
    ) by {
        if i == 0 {
        } else if i == 1 {
        } else if i == 2 {
        } else if i == 3 {
        } else if i == 4 {
        } else if i == 5 {
        } else if i == 6 {
        } else if i == 7 {
        } else {
        }
    }
}

/// What a batch is refused with: the first job that would overwrite its
/// source, else a job without rate control; `None` for a valid batch.
pub open spec fn batch_refusal(jobs: Seq<JobData>) -> Option<Seq<char>> {
    if exists|i: int| 0 <= i < jobs.len() && overwrites_source(#[trigger] jobs[i]) {
        Some(
            "Output path is the same as input: "@ + jobs[first_overwrite(jobs)].input_path@
                + " — this would overwrite the source file."@,
        )
    } else if exists|i: int| 0 <= i < jobs.len() && lacks_rate_control(#[trigger] jobs[i].params@) {
        Some("Dragon Trap: neither CRF nor video bitrate is set."@)
    } else {
        None
    }
}

/// In a batch where no job writes over its own source, the refusal for
/// rate control comes exactly when some job re-encodes video with neither
/// a CRF nor a video bitrate: a job with a CRF, a bitrate, both, or a
/// copied video stream never causes it, and it is the only refusal left.
pub proof fn lemma_rate_control_refusal(jobs: Seq<JobData>)
    requires
        forall|i: int| 0 <= i < jobs.len() ==> !overwrites_source(#[trigger] jobs[i]),
    ensures
        batch_refusal(jobs) is None <==> forall|i: int|
            0 <= i < jobs.len() ==> ({
                let p = #[trigger] jobs[i].params@;
                p.video_codec == VideoCodec::Copy || p.crf is Some || p.video_bitrate is Some
            }),
        batch_refusal(jobs) is Some ==> batch_refusal(jobs) == Some(
            "Dragon Trap: neither CRF nor video bitrate is set."@,
        ),
{
    if batch_refusal(jobs) is None {
        assert forall|i: int| 0 <= i < jobs.len() implies ({
            let p = #[trigger] jobs[i].params@;
            p.video_codec == VideoCodec::Copy || p.crf is Some || p.video_bitrate is Some
        }) by {
            assert(!lacks_rate_control(jobs[i].params@));
        }
    }
}

/// Checks a batch before encoding starts: no job may write over its own
/// source, and every job that re-encodes video needs a CRF or a bitrate.
pub fn validate_jobs(jobs: &Vec<JobData>) -> (r: Result<(), String>)
    ensures
        match r {
            Ok(()) => batch_refusal(jobs@) is None,
            Err(m) => batch_refusal(jobs@) == Some(m@),
        },
{
    let mut i: usize = 0;
    while i < jobs.len()
        invariant
            i <= jobs@.len(),
            forall|k: int| 0 <= k < i ==> !overwrites_source(#[trigger] jobs@[k]),
        decreases jobs@.len() - i,
    {
        if same_path(jobs[i].input_path.as_str(), jobs[i].output_path.as_str()) {
            proof {
                let f = first_overwrite(jobs@);
                assert(0 <= f < jobs@.len() && overwrites_source(jobs@[f]) && forall|k: int|
                    0 <= k < f ==> !overwrites_source(#[trigger] jobs@[k])) by {
                    assert(overwrites_source(jobs@[i as int]));
                }
                if f < i {
                    assert(!overwrites_source(jobs@[f]));
                }
                if f > i {
                    assert(!overwrites_source(jobs@[i as int]));
                }
            }
            let mut m = owned("Output path is the same as input: ");
            m.append(jobs[i].input_path.as_str());
            m.append(" — this would overwrite the source file.");
            return Err(m);
        }
        i = i + 1;
    }
    let mut i: usize = 0;
    while i < jobs.len()
        invariant
            i <= jobs@.len(),
            forall|k: int| 0 <= k < jobs@.len() ==> !overwrites_source(#[trigger] jobs@[k]),
            forall|k: int| 0 <= k < i ==> !lacks_rate_control(#[trigger] jobs@[k].params@),
        decreases jobs@.len() - i,
    {
        let p = &jobs[i].params;
        if p.video_codec != VideoCodec::Copy && p.crf.is_none() && p.video_bitrate.is_none() {
            assert(lacks_rate_control(jobs@[i as int].params@));
            return Err(owned("Dragon Trap: neither CRF nor video bitrate is set."));
        }
        i = i + 1;
    }
    Ok(())
}

/// A batch as the interface hands it over, made ready to run: refused as a
/// whole, before any job exists, when [`validate_jobs`] refuses it;
/// otherwise one new job per entry, in order, each with a fresh id.
pub fn plan_batch(jobs: Vec<JobData>) -> (r: Result<Vec<EncodeRun>, String>)
    ensures
        match r {
            Err(m) => batch_refusal(jobs@) == Some(m@),
            Ok(runs) => batch_refusal(jobs@) is None && runs@.len() == jobs@.len() && forall|k: int|
                0 <= k < runs@.len() ==> {
                    &&& #[trigger] runs@[k].input_path == jobs@[k].input_path
                    &&& runs@[k].output_path == jobs@[k].output_path
                    &&& runs@[k].params@ == jobs@[k].params@
                    &&& is_uuid_v4(runs@[k].job_id)
                },
        },
{
    match validate_jobs(&jobs) {
        Err(m) => {
            return Err(m);
        },
        Ok(()) => {},
    }
    let ghost js = jobs@;
    let mut rest = jobs;
    let mut rev: Vec<EncodeRun> = Vec::new();
    // Take the entries from the back, then put the runs back in order.
    while rest.len() > 0
        invariant
            rest@.len() + rev@.len() == js.len(),
            rest@ == js.take(rest@.len() as int),
            forall|k: int|
                0 <= k < rev@.len() ==> {
                    let d = js[js.len() - 1 - k];
                    &&& #[trigger] rev@[k].input_path == d.input_path
                    &&& rev@[k].output_path == d.output_path
                    &&& rev@[k].params@ == d.params@
                    &&& is_uuid_v4(rev@[k].job_id)
                },
        decreases rest@.len(),
    {
        let ghost before = rest@;
        let d = rest.pop().unwrap();
        assert(before == rest@.push(d));
        assert(d == js[js.len() - 1 - rev@.len()]);
        assert(rest@ =~= js.take(rest@.len() as int));
        let job = Job::new(d.input_path, d.output_path, d.params);
        rev.push(
            EncodeRun {
                job_id: job.id,
                input_path: job.input_path,
                output_path: job.output_path,
                params: job.params,
            },
        );
    }
    let ghost rv = rev@;
    let mut runs: Vec<EncodeRun> = Vec::new();
    while rev.len() > 0
        invariant
            rev@.len() + runs@.len() == js.len(),
            rev@ == rv.take(rev@.len() as int),
            rv.len() == js.len(),
            forall|k: int|
                0 <= k < rv.len() ==> {
                    let d = js[js.len() - 1 - k];
                    &&& #[trigger] rv[k].input_path == d.input_path
                    &&& rv[k].output_path == d.output_path
                    &&& rv[k].params@ == d.params@
                    &&& is_uuid_v4(rv[k].job_id)
                },
            forall|k: int|
                0 <= k < runs@.len() ==> {
                    &&& #[trigger] runs@[k].input_path == js[k].input_path
                    &&& runs@[k].output_path == js[k].output_path
                    &&& runs@[k].params@ == js[k].params@
                    &&& is_uuid_v4(runs@[k].job_id)
                },
        decreases rev@.len(),
    {
        let ghost before = rev@;
        let run = rev.pop().unwrap();
        assert(before == rev@.push(run));
        assert(run == rv[rev@.len() as int]);
        assert(rev@ =~= rv.take(rev@.len() as int));
        runs.push(run);
    }
    Ok(runs)
}

// ───────────────────────── history ─────────────────────────

/// How many finished jobs the history keeps.
pub const MAX_HISTORY: usize = 200;

/// One finished job, as kept in the history. `created_at` is in seconds
/// since the Unix epoch; the run time is in microseconds.
#[derive(Debug, Clone)]
pub struct HistoryEntry {
    pub id: String,
    pub input_path: String,
    pub output_path: String,
    pub status: String,
    pub error: Option<String>,
    pub created_at: u64,
    pub duration_micros: Option<u64>,
}

/// The status a finished job is recorded with.
pub open spec fn done_status_of(r: Result<String, MediaForgeError>) -> Seq<char> {
    match r {
        Ok(_) => "completed"@,
        Err(MediaForgeError::Cancelled) => "cancelled"@,
        Err(_) => "failed"@,
    }
}

/// `completed`, `cancelled` (the user stopped it) or `failed`.
pub fn done_status(r: &Result<String, MediaForgeError>) -> (s: &'static str)
    ensures
        s@ == done_status_of(*r),
{
    match r {
        Ok(_) => "completed",
        Err(MediaForgeError::Cancelled) => "cancelled",
        Err(_) => "failed",
    }
}

/// The history entry of a finished job.
pub fn history_entry(
    id: String,
    input_path: String,
    output_path: String,
    result: &Result<String, MediaForgeError>,
    created_at: u64,
    duration_micros: u64,
) -> (e: HistoryEntry)
    ensures
        e.id == id,
        e.input_path == input_path,
        e.output_path == output_path,
        e.status@ == done_status_of(*result),
        match result {
            Ok(_) => e.error is None,
            Err(err) => e.error matches Some(m) && m@ == err.message_of(),
        },
        e.created_at == created_at,
        e.duration_micros == Some(duration_micros),
{
    let error = match result {
        Ok(_) => None,
        Err(err) => Some(err.message()),
    };
    HistoryEntry {
        id,
        input_path,
        output_path,
        status: owned(done_status(result)),
        error,
        created_at,
        duration_micros: Some(duration_micros),
    }
}

/// The history after recording `entry`: the newest 200 entries, oldest
/// first.
pub open spec fn history_after(history: Seq<HistoryEntry>, entry: HistoryEntry) -> Seq<HistoryEntry> {
    let h = history.push(entry);
    if h.len() > 200 {
        h.skip(h.len() - 200)
    } else {
        h
    }
}

/// Records a finished job, dropping the oldest entries beyond 200.
pub fn append_history(history: Vec<HistoryEntry>, entry: HistoryEntry) -> (r: Vec<HistoryEntry>)
    ensures
        r@ == history_after(history@, entry),
{
    let mut h = history;
    h.push(entry);
    if h.len() > MAX_HISTORY {
        let at = h.len() - MAX_HISTORY;
        let kept = h.split_off(at);
        return kept;
    }
    h
}

/// The history after recording the entries of a batch, one after another.
pub open spec fn history_after_all(history: Seq<HistoryEntry>, entries: Seq<HistoryEntry>) -> Seq<
    HistoryEntry,
>
    decreases entries.len(),
{
    if entries.len() == 0 {
        history
    } else {
        history_after(history_after_all(history, entries.drop_last()), entries.last())
    }
}

/// The last `n` items of `s`, or all of them when there are fewer.
pub open spec fn last_items(s: Seq<HistoryEntry>, n: nat) -> Seq<HistoryEntry> {
    if s.len() > n {
        s.skip(s.len() - n)
    } else {
        s
    }
}

/// Recording a whole batch (at least one entry) one entry at a time keeps
/// the newest 200 of the old history followed by the batch's entries, in
/// order. (With no entry nothing is recorded and an old history is left
/// as it was, whatever its length.)
pub proof fn lemma_batch_history(history: Seq<HistoryEntry>, entries: Seq<HistoryEntry>)
    requires
        entries.len() > 0,
    ensures
        history_after_all(history, entries) == last_items(history + entries, 200),
    decreases entries.len(),
{
    let front = entries.drop_last();
    let e = entries.last();
    let s = history + front;
    assert(history + entries =~= s.push(e));
    assert(history_after_all(history, entries) == history_after(history_after_all(history, front), e));
    if entries.len() == 1 {
        assert(front.len() == 0);
        assert(s =~= history);
        assert(history_after_all(history, front) == history);
        assert(history_after(history, e) == last_items(history.push(e), 200));
    } else {
        lemma_batch_history(history, front);
        let t = last_items(s, 200);
        assert(history_after(t, e) == last_items(t.push(e), 200));
        if s.len() > 200 {
            assert(t.push(e).skip(t.push(e).len() - 200) =~= s.push(e).skip(s.push(e).len() - 200));
        } else {
            assert(t == s);
        }
    }
}

/// The history never holds more than 200 entries, the newest entry is
/// always kept, and the entries before it stay in their order.
pub proof fn lemma_history_bounded(history: Seq<HistoryEntry>, entry: HistoryEntry)
    ensures
        history_after(history, entry).len() <= 200,
        history_after(history, entry).last() == entry,
        history.len() < 200 ==> history_after(history, entry) == history.push(entry),
{
}

} // verus!
