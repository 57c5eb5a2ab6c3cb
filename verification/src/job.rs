//! Encoding parameters, presets, jobs and the job queue.
use vstd::prelude::*;

use crate::enums::{
    AudioCodec, AudioFilter, Container, DeinterlaceMethod, FpsMode, MovFlag, PixelFormat,
    PresetCategory, PresetSpeed, Profile, ScaleAlgorithm, VideoCodec, VideoFilter,
};
use crate::text::strs;

verus! {

broadcast use vstd::seq_lib::group_seq_properties, Seq::lemma_filter_push;

/// The view of an optional string.
pub open spec fn opt_str(o: Option<String>) -> Option<Seq<char>> {
    match o {
        Some(s) => Some(s@),
        None => None,
    }
}

/// The character sequences of metadata entries.
pub open spec fn pairs_view(v: Seq<(String, String)>) -> Seq<(Seq<char>, Seq<char>)> {
    v.map_values(|e: (String, String)| (e.0@, e.1@))
}

proof fn lemma_pairs_view_push(v: Seq<(String, String)>, e: (String, String))
    ensures
        pairs_view(v.push(e)) == pairs_view(v).push((e.0@, e.1@)),
{
    assert(pairs_view(v.push(e)) =~= pairs_view(v).push((e.0@, e.1@)));
}

/// The complete set of encoding parameters.
///
/// `metadata` holds `(key, value)` pairs; [`EncodeParams::insert_metadata`]
/// keeps the keys distinct, as a map would.
#[derive(Debug)]
pub struct EncodeParams {
    // Video
    pub video_codec: VideoCodec,
    pub width: u32,
    pub height: u32,
    pub scale_algorithm: ScaleAlgorithm,
    pub fps: FpsMode,
    pub crf: Option<u8>,
    pub video_bitrate: Option<u32>,
    pub max_bitrate: Option<u32>,
    pub bufsize: Option<u32>,
    pub preset: PresetSpeed,
    pub profile: Option<Profile>,
    pub pixel_format: PixelFormat,
    pub deinterlace: Option<DeinterlaceMethod>,
    pub video_filters: Vec<VideoFilter>,
    // Audio
    pub audio_codec: AudioCodec,
    pub audio_bitrate: u32,
    pub audio_channels: u8,
    pub sample_rate: u32,
    pub audio_filters: Vec<AudioFilter>,
    // Output
    pub container: Container,
    pub movflags: Vec<MovFlag>,
    pub threads: u8,
    // Metadata & trim
    pub metadata: Vec<(String, String)>,
    pub trim_start: Option<String>,
    pub trim_end: Option<String>,
    // Extra ffmpeg args
    pub extra_args: Vec<String>,
}

/// The mathematical value of [`EncodeParams`].
pub struct ParamsView {
    pub video_codec: VideoCodec,
    pub width: u32,
    pub height: u32,
    pub scale_algorithm: ScaleAlgorithm,
    pub fps: FpsMode,
    pub crf: Option<u8>,
    pub video_bitrate: Option<u32>,
    pub max_bitrate: Option<u32>,
    pub bufsize: Option<u32>,
    pub preset: PresetSpeed,
    pub profile: Option<Profile>,
    pub pixel_format: PixelFormat,
    pub deinterlace: Option<DeinterlaceMethod>,
    pub video_filters: Seq<VideoFilter>,
    pub audio_codec: AudioCodec,
    pub audio_bitrate: u32,
    pub audio_channels: u8,
    pub sample_rate: u32,
    pub audio_filters: Seq<AudioFilter>,
    pub container: Container,
    pub movflags: Seq<MovFlag>,
    pub threads: u8,
    pub metadata: Seq<(Seq<char>, Seq<char>)>,
    pub trim_start: Option<Seq<char>>,
    pub trim_end: Option<Seq<char>>,
    pub extra_args: Seq<Seq<char>>,
}

impl View for EncodeParams {
    type V = ParamsView;

    open spec fn view(&self) -> ParamsView {
        ParamsView {
            video_codec: self.video_codec,
            width: self.width,
            height: self.height,
            scale_algorithm: self.scale_algorithm,
            fps: self.fps,
            crf: self.crf,
            video_bitrate: self.video_bitrate,
            max_bitrate: self.max_bitrate,
            bufsize: self.bufsize,
            preset: self.preset,
            profile: self.profile,
            pixel_format: self.pixel_format,
            deinterlace: self.deinterlace,
            video_filters: self.video_filters@,
            audio_codec: self.audio_codec,
            audio_bitrate: self.audio_bitrate,
            audio_channels: self.audio_channels,
            sample_rate: self.sample_rate,
            audio_filters: self.audio_filters@,
            container: self.container,
            movflags: self.movflags@,
            threads: self.threads,
            metadata: pairs_view(self.metadata@),
            trim_start: opt_str(self.trim_start),
            trim_end: opt_str(self.trim_end),
            extra_args: strs(self.extra_args@),
        }
    }
}

/// The default parameters: H.264 1920×1080 Lanczos, CRF 19, medium,
/// yuv420p, AAC 128 kbps stereo 44.1 kHz, MP4 with faststart.
pub open spec fn default_params() -> ParamsView {
    ParamsView {
        video_codec: VideoCodec::H264,
        width: 1920,
        height: 1080,
        scale_algorithm: ScaleAlgorithm::Lanczos,
        fps: FpsMode::SameAsSource,
        crf: Some(19),
        video_bitrate: None,
        max_bitrate: None,
        bufsize: None,
        preset: PresetSpeed::Medium,
        profile: None,
        pixel_format: PixelFormat::Yuv420p,
        deinterlace: None,
        video_filters: Seq::empty(),
        audio_codec: AudioCodec::Aac,
        audio_bitrate: 128,
        audio_channels: 2,
        sample_rate: 44100,
        audio_filters: Seq::empty(),
        container: Container::Mp4,
        movflags: seq![MovFlag::FastStart],
        threads: 0,
        metadata: Seq::empty(),
        trim_start: None,
        trim_end: None,
        extra_args: Seq::empty(),
    }
}

impl Default for EncodeParams {
    fn default() -> (r: Self)
        ensures
            r@ == default_params(),
    {
        let r = EncodeParams {
            video_codec: VideoCodec::H264,
            width: 1920,
            height: 1080,
            scale_algorithm: ScaleAlgorithm::Lanczos,
            fps: FpsMode::SameAsSource,
            crf: Some(19),
            video_bitrate: None,
            max_bitrate: None,
            bufsize: None,
            preset: PresetSpeed::Medium,
            profile: None,
            pixel_format: PixelFormat::Yuv420p,
            deinterlace: None,
            video_filters: Vec::new(),
            audio_codec: AudioCodec::Aac,
            audio_bitrate: 128,
            audio_channels: 2,
            sample_rate: 44100,
            audio_filters: Vec::new(),
            container: Container::Mp4,
            movflags: vec![MovFlag::FastStart],
            threads: 0,
            metadata: Vec::new(),
            trim_start: None,
            trim_end: None,
            extra_args: Vec::new(),
        };
        assert(r@.metadata =~= Seq::empty());
        assert(r@.extra_args =~= Seq::empty());
        assert(r@.movflags =~= seq![MovFlag::FastStart]);
        r
    }
}

/// A copy of a list of values that are copied by value.
fn copy_vec<T: Copy>(v: &Vec<T>) -> (r: Vec<T>)
    ensures
        r@ == v@,
{
    let mut r: Vec<T> = Vec::new();
    let mut i: usize = 0;
    while i < v.len()
        invariant
            i <= v@.len(),
            r@ == v@.take(i as int),
        decreases v@.len() - i,
    {
        r.push(v[i]);
        i = i + 1;
        assert(r@ =~= v@.take(i as int));
    }
    assert(v@.take(v@.len() as int) =~= v@);
    r
}

/// A copy of a list of strings.
pub fn copy_strings(v: &Vec<String>) -> (r: Vec<String>)
    ensures
        r@ == v@,
{
    let mut r: Vec<String> = Vec::new();
    let mut i: usize = 0;
    while i < v.len()
        invariant
            i <= v@.len(),
            r@ == v@.take(i as int),
        decreases v@.len() - i,
    {
        r.push(v[i].clone());
        i = i + 1;
        assert(r@ =~= v@.take(i as int));
    }
    assert(v@.take(v@.len() as int) =~= v@);
    r
}

fn copy_pairs(v: &Vec<(String, String)>) -> (r: Vec<(String, String)>)
    ensures
        r@ == v@,
{
    let mut r: Vec<(String, String)> = Vec::new();
    let mut i: usize = 0;
    while i < v.len()
        invariant
            i <= v@.len(),
            r@ == v@.take(i as int),
        decreases v@.len() - i,
    {
        let k = v[i].0.clone();
        let x = v[i].1.clone();
        r.push((k, x));
        i = i + 1;
        assert(r@ =~= v@.take(i as int));
    }
    assert(v@.take(v@.len() as int) =~= v@);
    r
}

fn copy_opt_string(o: &Option<String>) -> (r: Option<String>)
    ensures
        r == *o,
{
    match o {
        Some(s) => Some(s.clone()),
        None => None,
    }
}

impl Clone for EncodeParams {
    fn clone(&self) -> (r: Self)
        ensures
            r@ == self@,
    {
        EncodeParams {
            video_codec: self.video_codec,
            width: self.width,
            height: self.height,
            scale_algorithm: self.scale_algorithm,
            fps: self.fps,
            crf: self.crf,
            video_bitrate: self.video_bitrate,
            max_bitrate: self.max_bitrate,
            bufsize: self.bufsize,
            preset: self.preset,
            profile: self.profile,
            pixel_format: self.pixel_format,
            deinterlace: self.deinterlace,
            video_filters: copy_vec(&self.video_filters),
            audio_codec: self.audio_codec,
            audio_bitrate: self.audio_bitrate,
            audio_channels: self.audio_channels,
            sample_rate: self.sample_rate,
            audio_filters: copy_vec(&self.audio_filters),
            container: self.container,
            movflags: copy_vec(&self.movflags),
            threads: self.threads,
            metadata: copy_pairs(&self.metadata),
            trim_start: copy_opt_string(&self.trim_start),
            trim_end: copy_opt_string(&self.trim_end),
            extra_args: copy_strings(&self.extra_args),
        }
    }
}

/// Metadata `m` with `key` set to `value`: an entry with that key has its
/// value replaced in place, otherwise the entry is appended.
pub open spec fn metadata_insert(m: Seq<(Seq<char>, Seq<char>)>, key: Seq<char>, value: Seq<char>) -> Seq<
    (Seq<char>, Seq<char>),
> {
    if exists|i: int| 0 <= i < m.len() && m[i].0 == key {
        m.map_values(|e: (Seq<char>, Seq<char>)| if e.0 == key { (key, value) } else { e })
    } else {
        m.push((key, value))
    }
}

/// Metadata `m` without the entries whose key is `key`.
pub open spec fn metadata_remove(m: Seq<(Seq<char>, Seq<char>)>, key: Seq<char>) -> Seq<
    (Seq<char>, Seq<char>),
> {
    m.filter(|e: (Seq<char>, Seq<char>)| e.0 != key)
}

/// Every key occurs at most once.
pub open spec fn keys_distinct(m: Seq<(Seq<char>, Seq<char>)>) -> bool {
    forall|i: int, j: int| 0 <= i < j < m.len() ==> m[i].0 != m[j].0
}

impl EncodeParams {
    /// Sets a metadata entry (`HashMap::insert`): replaces the value of an
    /// existing key, or appends a new entry. Keeps keys distinct.
    pub fn insert_metadata(&mut self, key: &str, value: &str)
        ensures
            final(self)@ == (ParamsView {
                metadata: metadata_insert(old(self)@.metadata, key@, value@),
                ..old(self)@
            }),
            keys_distinct(old(self)@.metadata) ==> keys_distinct(final(self)@.metadata),
    {
        let ghost m0 = pairs_view(self.metadata@);
        let ghost f = |e: (Seq<char>, Seq<char>)|
            if e.0 == key@ {
                (key@, value@)
            } else {
                e
            };
        let mut out: Vec<(String, String)> = Vec::new();
        let mut found = false;
        let mut i: usize = 0;
        let n = self.metadata.len();
        while i < n
            invariant
                n == self.metadata@.len(),
                m0 == pairs_view(self.metadata@),
                i <= n,
                pairs_view(out@) == m0.take(i as int).map_values(f),
                forall|e: (Seq<char>, Seq<char>)|
                    #[trigger] f(e) == if e.0 == key@ {
                        (key@, value@)
                    } else {
                        e
                    },
                found <==> exists|j: int| 0 <= j < i && m0[j].0 == key@,
            decreases n - i,
        {
            let k = self.metadata[i].0.clone();
            let v = self.metadata[i].1.clone();
            let ghost out0 = out@;
            assert(m0[i as int] == (k@, v@));
            assert(m0.take(i + 1) =~= m0.take(i as int).push(m0[i as int]));
            assert(m0.take(i + 1).map_values(f) =~= m0.take(i as int).map_values(f).push(f(m0[i as int])));
            let same = k == owned_of(key);
            if same {
                let e = (owned_of(key), owned_of(value));
                proof {
                    lemma_pairs_view_push(out@, e);
                }
                out.push(e);
                assert(k@ == key@);
                assert(f(m0[i as int]) == (key@, value@));
                assert(pairs_view(out@) == pairs_view(out0).push((key@, value@)));
                found = true;
            } else {
                proof {
                    lemma_pairs_view_push(out@, (k, v));
                }
                out.push((k, v));
                assert(k@ != key@);
                assert(f(m0[i as int]) == m0[i as int]);
                assert(pairs_view(out@) == pairs_view(out0).push(m0[i as int]));
            }
            i = i + 1;
            assert(pairs_view(out@) =~= pairs_view(out0).push(f(m0[i - 1])));
        }
        assert(m0.take(n as int) =~= m0);
        if !found {
            let e = (owned_of(key), owned_of(value));
            proof {
                lemma_pairs_view_push(out@, e);
            }
            out.push(e);
            assert(m0.map_values(f) =~= m0);
            assert(pairs_view(out@) =~= m0.push((key@, value@)));
        } else {
            assert(m0.map_values(f) =~= metadata_insert(m0, key@, value@));
        }
        self.metadata = out;
        proof {
            let m1 = pairs_view(self.metadata@);
            if keys_distinct(m0) {
                assert forall|a: int, b: int| 0 <= a < b < m1.len() implies m1[a].0 != m1[b].0 by {
                    if b == m0.len() {
                        assert(m1[a].0 == m0[a].0);
                    } else {
                        assert(m0[a].0 != m0[b].0);
                    }
                }
            }
        }
    }

    /// Removes the metadata entries with key `key` (`HashMap::remove`).
    pub fn remove_metadata(&mut self, key: &str)
        ensures
            final(self)@ == (ParamsView {
                metadata: metadata_remove(old(self)@.metadata, key@),
                ..old(self)@
            }),
    {
        let ghost m0 = pairs_view(self.metadata@);
        let ghost pred = |e: (Seq<char>, Seq<char>)| e.0 != key@;
        let mut out: Vec<(String, String)> = Vec::new();
        let mut i: usize = 0;
        let n = self.metadata.len();
        while i < n
            invariant
                n == self.metadata@.len(),
                m0 == pairs_view(self.metadata@),
                i <= n,
                pairs_view(out@) == m0.take(i as int).filter(pred),
                forall|e: (Seq<char>, Seq<char>)| #[trigger] pred(e) == (e.0 != key@),
            decreases n - i,
        {
            let k = self.metadata[i].0.clone();
            let v = self.metadata[i].1.clone();
            let ghost out0 = out@;
            assert(m0[i as int] == (k@, v@));
            let keep = !(k == owned_of(key));
            if keep {
                proof {
                    lemma_pairs_view_push(out@, (k, v));
                }
                out.push((k, v));
            }
            i = i + 1;
            assert(m0.take(i as int) =~= m0.take(i - 1).push(m0[i - 1]));
            proof {
                m0.take(i - 1).lemma_filter_push(m0[i - 1], pred);
            }
            if keep {
                assert(pairs_view(out@) =~= pairs_view(out0).push(m0[i - 1]));
            } else {
                assert(pairs_view(out@) =~= pairs_view(out0));
            }
        }
        assert(m0.take(n as int) =~= m0);
        self.metadata = out;
    }
}

fn owned_of(s: &str) -> (r: String)
    ensures
        r@ == s@,
{
    s.to_owned()
}

/// A named, reusable parameter template.
#[derive(Debug)]
pub struct Preset {
    pub id: String,
    pub name: String,
    pub description: String,
    pub category: PresetCategory,
    pub params: EncodeParams,
}

/// The mathematical value of [`Preset`].
pub struct PresetView {
    pub id: Seq<char>,
    pub name: Seq<char>,
    pub description: Seq<char>,
    pub category: PresetCategory,
    pub params: ParamsView,
}

impl View for Preset {
    type V = PresetView;

    open spec fn view(&self) -> PresetView {
        PresetView {
            id: self.id@,
            name: self.name@,
            description: self.description@,
            category: self.category,
            params: self.params@,
        }
    }
}

impl Clone for Preset {
    fn clone(&self) -> (r: Self)
        ensures
            r@ == self@,
    {
        Preset {
            id: self.id.clone(),
            name: self.name.clone(),
            description: self.description.clone(),
            category: self.category,
            params: self.params.clone(),
        }
    }
}

/// Progress reported by ffmpeg during encoding. Rates are given in
/// thousandths (`fps_milli == 25000` is 25 fps, `speed_milli == 2500` is
/// 2.5×) and the percentage in hundredths of a percent (`10000` is 100%).
#[derive(Debug, Clone)]
pub struct ProgressInfo {
    pub frame: u64,
    pub fps_milli: u64,
    pub bitrate: String,
    pub total_size: u64,
    pub out_time_us: u64,
    pub speed_milli: u64,
    pub progress_pct_hundredths: u32,
}

/// The mathematical value of [`ProgressInfo`].
pub struct ProgressView {
    pub frame: u64,
    pub fps_milli: u64,
    pub bitrate: Seq<char>,
    pub total_size: u64,
    pub out_time_us: u64,
    pub speed_milli: u64,
    pub progress_pct_hundredths: u32,
}

impl View for ProgressInfo {
    type V = ProgressView;

    open spec fn view(&self) -> ProgressView {
        ProgressView {
            frame: self.frame,
            fps_milli: self.fps_milli,
            bitrate: self.bitrate@,
            total_size: self.total_size,
            out_time_us: self.out_time_us,
            speed_milli: self.speed_milli,
            progress_pct_hundredths: self.progress_pct_hundredths,
        }
    }
}

/// All counters zero and the bitrate empty.
pub open spec fn zero_progress() -> ProgressView {
    ProgressView {
        frame: 0,
        fps_milli: 0,
        bitrate: Seq::empty(),
        total_size: 0,
        out_time_us: 0,
        speed_milli: 0,
        progress_pct_hundredths: 0,
    }
}

impl Default for ProgressInfo {
    fn default() -> (r: Self)
        ensures
            r@ == zero_progress(),
    {
        ProgressInfo {
            frame: 0,
            fps_milli: 0,
            bitrate: String::new(),
            total_size: 0,
            out_time_us: 0,
            speed_milli: 0,
            progress_pct_hundredths: 0,
        }
    }
}

/// The status of one job.
#[derive(Debug, Clone)]
pub enum JobStatus {
    Pending,
    Running(ProgressInfo),
    Completed,
    Failed(String),
    Cancelled,
}

/// One encode job. The id is the 128-bit value of a random (version 4)
/// UUID; `created_at_micros` counts microseconds since the Unix epoch.
#[derive(Debug)]
pub struct Job {
    pub id: u128,
    pub input_path: String,
    pub output_path: String,
    pub params: EncodeParams,
    pub status: JobStatus,
    pub ffmpeg_command: String,
    pub created_at_micros: i64,
}

/// A version 4, variant 1 UUID: bits 76..80 hold 4 and bits 62..64 hold 2.
pub open spec fn is_uuid_v4(id: u128) -> bool {
    &&& (id >> 76u128) & 0xfu128 == 4
    &&& (id >> 62u128) & 0x3u128 == 2
}

/// `uuid::Uuid::new_v4().as_u128()`: a fresh random UUID.
/// Claims only the version and variant bits, which `new_v4` sets by mask;
/// the other 122 bits are random and nothing is claimed of them.
#[verifier::external_body]
fn new_uuid_v4() -> (r: u128)
    ensures
        is_uuid_v4(r),
{
    uuid::Uuid::new_v4().as_u128()
}

/// `DateTime::<Utc>::from(SystemTime::now()).timestamp_micros()`: the
/// current time in microseconds since the Unix epoch (negative for a clock
/// set before 1970). Nothing is claimed of the value: it depends on the
/// clock.
#[verifier::external_body]
fn now_micros() -> (r: i64) {
    chrono::DateTime::<chrono::Utc>::from(std::time::SystemTime::now()).timestamp_micros()
}

impl Job {
    /// A pending job with a fresh random id and the current time.
    pub fn new(input_path: String, output_path: String, params: EncodeParams) -> (r: Job)
        ensures
            r.input_path == input_path,
            r.output_path == output_path,
            r.params@ == params@,
            r.status is Pending,
            r.ffmpeg_command@ == Seq::<char>::empty(),
            is_uuid_v4(r.id),
    {
        Job {
            id: new_uuid_v4(),
            input_path,
            output_path,
            params,
            status: JobStatus::Pending,
            ffmpeg_command: String::new(),
            created_at_micros: now_micros(),
        }
    }

    /// Progress in hundredths of a percent: the reported value while
    /// running, 100% once completed, 0 otherwise.
    pub open spec fn progress_of(&self) -> nat {
        match self.status {
            JobStatus::Running(info) => info.progress_pct_hundredths as nat,
            JobStatus::Completed => 10000,
            _ => 0,
        }
    }

    /// Progress in hundredths of a percent (`10000` is 100%).
    pub fn progress_pct(&self) -> (r: u32)
        ensures
            r == self.progress_of(),
    {
        match &self.status {
            JobStatus::Running(info) => info.progress_pct_hundredths,
            JobStatus::Completed => 10000,
            _ => 0,
        }
    }
}

/// The jobs that are waiting to run.
pub open spec fn pending_jobs(jobs: Seq<Job>) -> Seq<Job> {
    jobs.filter(|j: Job| j.status is Pending)
}

/// The jobs whose id differs from `id`, in their order.
pub open spec fn jobs_without(jobs: Seq<Job>, id: u128) -> Seq<Job> {
    jobs.filter(|j: Job| j.id != id)
}

/// The sum of the jobs' progress values.
pub open spec fn progress_sum(jobs: Seq<Job>) -> nat
    decreases jobs.len(),
{
    if jobs.len() == 0 {
        0
    } else {
        progress_sum(jobs.drop_last()) + jobs.last().progress_of()
    }
}

/// The mean progress of the jobs, rounded down; 0 for no jobs.
pub open spec fn overall_progress_of(jobs: Seq<Job>) -> nat {
    if jobs.len() == 0 {
        0
    } else {
        progress_sum(jobs) / jobs.len()
    }
}

/// Removing a job just added, by its id, gives the queue back as it was,
/// when no earlier job shares that id.
pub proof fn lemma_add_then_remove(jobs: Seq<Job>, job: Job)
    requires
        forall|i: int| 0 <= i < jobs.len() ==> #[trigger] jobs[i].id != job.id,
    ensures
        jobs_without(jobs.push(job), job.id) == jobs,
{
    jobs.lemma_filter_push(job, |j: Job| j.id != job.id);
    lemma_without_absent(jobs, job.id);
}

/// Removing an id that no job has changes nothing.
proof fn lemma_without_absent(jobs: Seq<Job>, id: u128)
    requires
        forall|i: int| 0 <= i < jobs.len() ==> #[trigger] jobs[i].id != id,
    ensures
        jobs_without(jobs, id) == jobs,
    decreases jobs.len(),
{
    if jobs.len() > 0 {
        let front = jobs.drop_last();
        assert forall|i: int| 0 <= i < front.len() implies #[trigger] front[i].id != id by {
            assert(front[i] == jobs[i]);
        }
        lemma_without_absent(front, id);
        assert(jobs.last().id != id) by {
            assert(jobs[jobs.len() - 1].id != id);
        }
        front.lemma_filter_push(jobs.last(), |j: Job| j.id != id);
        assert(front.push(jobs.last()) =~= jobs);
    } else {
        assert(jobs.filter(|j: Job| j.id != id) =~= jobs);
    }
}

/// The sum of progress values of at most 100% each is at most 100% per job.
proof fn lemma_progress_sum_bounded(jobs: Seq<Job>)
    requires
        forall|i: int| 0 <= i < jobs.len() ==> #[trigger] jobs[i].progress_of() <= 10000,
    ensures
        progress_sum(jobs) <= 10000 * jobs.len(),
    decreases jobs.len(),
{
    if jobs.len() > 0 {
        let front = jobs.drop_last();
        assert forall|i: int| 0 <= i < front.len() implies #[trigger] front[i].progress_of()
            <= 10000 by {
            assert(front[i] == jobs[i]);
        }
        lemma_progress_sum_bounded(front);
        assert(jobs.last().progress_of() <= 10000) by {
            assert(jobs[jobs.len() - 1].progress_of() <= 10000);
        }
    }
}

/// The overall progress of a queue never shows more than 100% while no job
/// does (each running job's progress comes from ffmpeg's reports, which
/// stay within 100%).
pub proof fn lemma_overall_progress_bounded(jobs: Seq<Job>)
    requires
        forall|i: int| 0 <= i < jobs.len() ==> #[trigger] jobs[i].progress_of() <= 10000,
    ensures
        overall_progress_of(jobs) <= 10000,
{
    if jobs.len() > 0 {
        lemma_progress_sum_bounded(jobs);
        let n = jobs.len();
        let s = progress_sum(jobs);
        assert(s / n <= 10000) by (nonlinear_arith)
            requires
                s <= 10000 * n,
                n > 0,
        ;
    }
}

/// A queue of encode jobs, in the order they were added.
#[derive(Debug, Default)]
pub struct JobQueue {
    pub jobs: Vec<Job>,
}

impl JobQueue {
    /// An empty queue.
    pub fn new() -> (r: JobQueue)
        ensures
            r.jobs@.len() == 0,
    {
        JobQueue { jobs: Vec::new() }
    }

    /// Appends a job at the end.
    pub fn add(&mut self, job: Job)
        ensures
            final(self).jobs@ == old(self).jobs@.push(job),
    {
        self.jobs.push(job);
    }

    /// Removes every job with the given id; the others keep their order.
    pub fn remove(&mut self, id: u128)
        ensures
            final(self).jobs@ == jobs_without(old(self).jobs@, id),
    {
        let ghost old_jobs = self.jobs@;
        let ghost mut k: int = 0;
        let mut i: usize = 0;
        while i < self.jobs.len()
            invariant
                0 <= k <= old_jobs.len(),
                i <= self.jobs@.len(),
                self.jobs@.take(i as int) == jobs_without(old_jobs.take(k), id),
                self.jobs@.skip(i as int) == old_jobs.skip(k),
            decreases self.jobs@.len() - i,
        {
            let ghost before = self.jobs@;
            proof {
                assert(before.skip(i as int).len() == old_jobs.skip(k).len());
                assert(before.skip(i as int)[0] == before[i as int]);
                assert(old_jobs.skip(k)[0] == old_jobs[k]);
                assert(old_jobs.take(k + 1) =~= old_jobs.take(k).push(old_jobs[k]));
                assert(before.skip(i + 1) =~= before.skip(i as int).drop_first());
                assert(old_jobs.skip(k + 1) =~= old_jobs.skip(k).drop_first());
            }
            if self.jobs[i].id == id {
                self.jobs.remove(i);
                assert(self.jobs@.take(i as int) =~= before.take(i as int));
                assert(self.jobs@.skip(i as int) =~= before.skip(i + 1));
            } else {
                i = i + 1;
                assert(self.jobs@.take(i as int) =~= before.take(i - 1).push(before[i - 1]));
            }
            proof {
                k = k + 1;
            }
        }
        assert(self.jobs@.take(i as int) =~= self.jobs@);
        assert(old_jobs.skip(k).len() == 0);
        assert(old_jobs.take(k) =~= old_jobs);
    }

    /// The number of pending jobs.
    pub fn pending_count(&self) -> (r: usize)
        ensures
            r == pending_jobs(self.jobs@).len(),
    {
        let mut c: usize = 0;
        let mut i: usize = 0;
        while i < self.jobs.len()
            invariant
                i <= self.jobs@.len(),
                c == pending_jobs(self.jobs@.take(i as int)).len(),
                c <= i,
            decreases self.jobs@.len() - i,
        {
            assert(self.jobs@.take(i + 1) =~= self.jobs@.take(i as int).push(self.jobs@[i as int]));
            if matches!(self.jobs[i].status, JobStatus::Pending) {
                c = c + 1;
            }
            i = i + 1;
        }
        assert(self.jobs@.take(self.jobs@.len() as int) =~= self.jobs@);
        c
    }

    /// The number of jobs.
    pub fn total_count(&self) -> (r: usize)
        ensures
            r == self.jobs@.len(),
    {
        self.jobs.len()
    }

    /// The mean progress of all jobs in hundredths of a percent, rounded
    /// down; 0 for an empty queue.
    pub fn overall_progress(&self) -> (r: u32)
        ensures
            r == overall_progress_of(self.jobs@),
    {
        let n = self.jobs.len();
        if n == 0 {
            return 0;
        }
        let mut total: u128 = 0;
        let mut i: usize = 0;
        while i < n
            invariant
                n == self.jobs@.len(),
                i <= n,
                total == progress_sum(self.jobs@.take(i as int)),
                total <= i * 0xffff_ffffu128,
            decreases n - i,
        {
            assert(self.jobs@.take(i + 1).drop_last() =~= self.jobs@.take(i as int));
            let p = self.jobs[i].progress_pct();
            total = total + p as u128;
            i = i + 1;
        }
        assert(self.jobs@.take(n as int) =~= self.jobs@);
        assert(total / (n as u128) <= 0xffff_ffffu128) by (nonlinear_arith)
            requires
                total <= n * 0xffff_ffffu128,
                n > 0,
        ;
        (total / (n as u128)) as u32
    }
}

} // verus!
