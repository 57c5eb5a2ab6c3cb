//! The ffmpeg command line for a set of parameters, its printable form,
//! and the parsing of what ffmpeg and ffprobe report back.
use vstd::prelude::*;

use crate::enums::{
    AudioCodec, AudioFilter, Container, DeinterlaceMethod, FpsMode, MovFlag, VideoCodec,
    VideoFilter,
};
use crate::job::{pairs_view, EncodeParams, ParamsView};
use crate::text::{
    dec, has_char, join, join_strings, lemma_strs_push, nat_to_string, owned, str_has_char, strs,
};

verus! {

broadcast use vstd::seq_lib::group_seq_properties;

// ───────────────────────── the command, as a specification ─────────────────────────

/// The frame rate of a GIF: the fixed rate if one is set, else 10.
pub open spec fn gif_fps(p: ParamsView) -> nat {
    match p.fps {
        FpsMode::Fixed(f) => f as nat,
        FpsMode::SameAsSource => 10,
    }
}

/// Each video filter's expression, each preceded by a comma.
pub open spec fn comma_each(fs: Seq<VideoFilter>) -> Seq<char>
    decreases fs.len(),
{
    if fs.len() == 0 {
        Seq::<char>::empty()
    } else {
        comma_each(fs.drop_last()) + ","@ + fs.last().ffmpeg_string_of()
    }
}

/// The filter graph of a GIF: frame rate, scale, a generated palette, then
/// the user's filters.
pub open spec fn gif_filter(p: ParamsView) -> Seq<char> {
    "fps="@ + dec(gif_fps(p)) + ",scale="@ + dec(p.width as nat) + ":"@ + dec(p.height as nat)
        + ":flags="@ + p.scale_algorithm.ffmpeg_flag_of()
        + ",split[s0][s1];[s0]palettegen[p];[s1][p]paletteuse"@ + comma_each(p.video_filters)
}

/// `-ss` / `-to` for the trim points that are set.
pub open spec fn trim_args(p: ParamsView) -> Seq<Seq<char>> {
    (match p.trim_start {
        Some(s) => seq!["-ss"@, s],
        None => Seq::empty(),
    }) + (match p.trim_end {
        Some(t) => seq!["-to"@, t],
        None => Seq::empty(),
    })
}

/// A value in kbit/s as ffmpeg takes it (`5000k`).
pub open spec fn kbits(v: u32) -> Seq<char> {
    dec(v as nat) + "k"@
}

/// `flag value` when the value is set, nothing otherwise.
pub open spec fn opt_kbits_arg(flag: Seq<char>, v: Option<u32>) -> Seq<Seq<char>> {
    match v {
        Some(b) => seq![flag, kbits(b)],
        None => Seq::empty(),
    }
}

/// Rate control: CRF, target bitrate, max bitrate and buffer size, each
/// when set.
pub open spec fn rate_args(p: ParamsView) -> Seq<Seq<char>> {
    (match p.crf {
        Some(c) => seq!["-crf"@, dec(c as nat)],
        None => Seq::empty(),
    }) + opt_kbits_arg("-b:v"@, p.video_bitrate) + opt_kbits_arg("-maxrate"@, p.max_bitrate)
        + opt_kbits_arg("-bufsize"@, p.bufsize)
}

/// The speed setting in the form each encoder takes it: VP9 `-deadline good
/// -cpu-used N`, libaom `-cpu-used N`, SVT-AV1 numeric `-preset N`, the
/// others `-preset <name>`.
pub open spec fn speed_args(p: ParamsView) -> Seq<Seq<char>> {
    match p.video_codec {
        VideoCodec::VP9 => seq![
            "-deadline"@,
            "good"@,
            "-cpu-used"@,
            dec(p.preset.vp9_cpu_used_of() as nat),
        ],
        VideoCodec::AV1 => seq!["-cpu-used"@, dec(p.preset.av1_cpu_used_of() as nat)],
        VideoCodec::SVTAV1 => seq!["-preset"@, dec(p.preset.svtav1_preset_of() as nat)],
        _ => seq!["-preset"@, p.preset.ffmpeg_name_of()],
    }
}

/// Whether the encoder takes an H.264-style `-profile:v`.
pub open spec fn takes_profile(c: VideoCodec) -> bool {
    !(c == VideoCodec::VP9 || c == VideoCodec::AV1 || c == VideoCodec::SVTAV1)
}

/// `-profile:v` when a profile is set and the encoder takes one.
pub open spec fn profile_args(p: ParamsView) -> Seq<Seq<char>> {
    match p.profile {
        Some(pr) => if takes_profile(p.video_codec) {
            seq!["-profile:v"@, pr.ffmpeg_name_of()]
        } else {
            Seq::empty()
        },
        None => Seq::empty(),
    }
}

/// The video filter chain: deinterlacing if set, then scaling, then the
/// user's filters.
pub open spec fn vf_parts(p: ParamsView) -> Seq<Seq<char>> {
    (match p.deinterlace {
        Some(d) => seq![d.ffmpeg_name_of()],
        None => Seq::empty(),
    }) + seq![
        "scale="@ + dec(p.width as nat) + ":"@ + dec(p.height as nat) + ":flags="@
            + p.scale_algorithm.ffmpeg_flag_of(),
    ] + p.video_filters.map_values(|f: VideoFilter| f.ffmpeg_string_of())
}

/// The sample rates libopus accepts.
pub open spec fn opus_rate_ok(r: u32) -> bool {
    r == 48000 || r == 24000 || r == 16000 || r == 12000 || r == 8000
}

/// The sample rate passed to ffmpeg: 48000 for Opus at a rate libopus
/// rejects, the requested rate otherwise.
pub open spec fn effective_sample_rate(p: ParamsView) -> u32 {
    if p.audio_codec == AudioCodec::Opus && !opus_rate_ok(p.sample_rate) {
        48000
    } else {
        p.sample_rate
    }
}

/// Audio codec, bitrate, channel count and sample rate.
pub open spec fn audio_args(p: ParamsView) -> Seq<Seq<char>> {
    seq![
        "-c:a"@,
        p.audio_codec.ffmpeg_name_of(),
        "-b:a"@,
        kbits(p.audio_bitrate),
        "-ac"@,
        dec(p.audio_channels as nat),
        "-ar"@,
        dec(effective_sample_rate(p) as nat),
    ]
}

/// `-af` with the audio filters joined by commas, if there are any.
pub open spec fn af_args(p: ParamsView) -> Seq<Seq<char>> {
    if p.audio_filters.len() == 0 {
        Seq::empty()
    } else {
        seq![
            "-af"@,
            join(p.audio_filters.map_values(|f: AudioFilter| f.ffmpeg_string_of()), ","@),
        ]
    }
}

/// `-movflags` with the flags joined by `+`, if there are any.
pub open spec fn movflag_args(p: ParamsView) -> Seq<Seq<char>> {
    if p.movflags.len() == 0 {
        Seq::empty()
    } else {
        seq!["-movflags"@, join(p.movflags.map_values(|f: MovFlag| f.ffmpeg_name_of()), "+"@)]
    }
}

/// `-metadata key=value` for each entry, in order.
pub open spec fn metadata_args(m: Seq<(Seq<char>, Seq<char>)>) -> Seq<Seq<char>>
    decreases m.len(),
{
    if m.len() == 0 {
        Seq::empty()
    } else {
        metadata_args(m.drop_last()) + seq!["-metadata"@, m.last().0 + "="@ + m.last().1]
    }
}

/// `-r` when a fixed frame rate is set.
pub open spec fn fps_args(p: ParamsView) -> Seq<Seq<char>> {
    match p.fps {
        FpsMode::Fixed(f) => seq!["-r"@, dec(f as nat)],
        FpsMode::SameAsSource => Seq::empty(),
    }
}

/// `-threads` when a thread count is set (0 lets ffmpeg choose).
pub open spec fn thread_args(p: ParamsView) -> Seq<Seq<char>> {
    if p.threads > 0 {
        seq!["-threads"@, dec(p.threads as nat)]
    } else {
        Seq::empty()
    }
}

/// Trim points, video codec, rate control and speed.
pub open spec fn codec_section(p: ParamsView) -> Seq<Seq<char>> {
    trim_args(p) + seq!["-c:v"@, p.video_codec.ffmpeg_name_of()] + rate_args(p) + speed_args(p)
        + profile_args(p)
}

/// Video filters, pixel format and frame rate.
pub open spec fn picture_section(p: ParamsView) -> Seq<Seq<char>> {
    seq!["-vf"@, join(vf_parts(p), ","@), "-pix_fmt"@, p.pixel_format.ffmpeg_name_of()] + fps_args(
        p,
    )
}

/// Audio, muxer flags, threads, metadata and the extra arguments.
pub open spec fn output_section(p: ParamsView) -> Seq<Seq<char>> {
    audio_args(p) + af_args(p) + movflag_args(p) + thread_args(p) + metadata_args(p.metadata)
        + p.extra_args
}

/// Everything between `-i <input>` and the progress flags, for a video or
/// audio output.
pub open spec fn encode_body(p: ParamsView) -> Seq<Seq<char>> {
    codec_section(p) + picture_section(p) + output_section(p)
}

/// Everything between `-i <input>` and the progress flags: for a GIF only
/// the palette filter graph, otherwise [`encode_body`].
pub open spec fn command_body(p: ParamsView) -> Seq<Seq<char>> {
    if p.container == Container::Gif {
        seq!["-vf"@, gif_filter(p)]
    } else {
        encode_body(p)
    }
}

/// The arguments ffmpeg is run with: overwrite, the input, the body, then
/// progress reporting on stderr, and the output last.
pub open spec fn command_args(p: ParamsView, input: Seq<char>, output: Seq<char>) -> Seq<
    Seq<char>,
> {
    seq!["-y"@, "-i"@, input] + command_body(p) + seq![
        "-progress"@,
        "pipe:2"@,
        "-nostats"@,
        output,
    ]
}

/// The program that is run: the given ffmpeg path, or `ffmpeg` from PATH.
pub open spec fn program_of(ffmpeg_path: Option<Seq<char>>) -> Seq<char> {
    match ffmpeg_path {
        Some(p) => p,
        None => "ffmpeg"@,
    }
}

/// The first path, in the order they were looked at, that names an
/// existing file; `None` when none does.
pub open spec fn first_existing(candidates: Seq<(Seq<char>, bool)>) -> Option<Seq<char>>
    decreases candidates.len(),
{
    if candidates.len() == 0 {
        None
    } else if candidates[0].1 {
        Some(candidates[0].0)
    } else {
        first_existing(candidates.drop_first())
    }
}

/// The texts of candidate paths, each with whether it exists.
pub open spec fn candidate_views(v: Seq<(String, bool)>) -> Seq<(Seq<char>, bool)> {
    v.map_values(|c: (String, bool)| (c.0@, c.1))
}

/// Which ffmpeg to run: the first of the candidate paths that exists (a
/// configured path, `MEDIAFORGE_FFMPEG_PATH`, `ffmpeg` beside the program,
/// then `ffmpeg/ffmpeg` beside it, each with whether it exists), else the
/// one found on `PATH`, if any.
pub fn choose_ffmpeg(candidates: Vec<(String, bool)>, on_path: Option<String>) -> (r: Option<String>)
    ensures
        match first_existing(candidate_views(candidates@)) {
            Some(p) => r matches Some(s) && s@ == p,
            None => r == on_path,
        },
{
    let ghost cs = candidate_views(candidates@);
    let mut rest = candidates;
    let mut i: usize = 0;
    let n = rest.len();
    let ghost orig = rest@;
    while i < n
        invariant
            n == orig.len(),
            i <= n,
            rest@ == orig,
            cs == candidate_views(orig),
            cs == candidate_views(candidates@),
            first_existing(cs) == first_existing(cs.skip(i as int)),
        decreases n - i,
    {
        let ghost t = cs.skip(i as int);
        assert(t[0] == (orig[i as int].0@, orig[i as int].1));
        if rest[i].1 {
            let found = crate::text::owned(rest[i].0.as_str());
            assert(t.len() > 0 && t[0].1);
            assert(first_existing(t) == Some(t[0].0));
            return Some(found);
        }
        assert(t.drop_first() =~= cs.skip(i + 1));
        i = i + 1;
    }
    assert(cs.skip(n as int).len() == 0);
    on_path
}

// ───────────────────────── building it ─────────────────────────

/// A program and its arguments, ready to be run.
#[derive(Debug)]
pub struct FfmpegCommand {
    pub program: String,
    pub args: Vec<String>,
}

/// Appends one argument.
fn push_arg(v: &mut Vec<String>, s: String)
    ensures
        strs(final(v)@) == strs(old(v)@).push(s@),
{
    proof {
        lemma_strs_push(v@, s);
    }
    v.push(s);
}

/// Appends a literal argument.
fn push_lit(v: &mut Vec<String>, s: &str)
    ensures
        strs(final(v)@) == strs(old(v)@).push(s@),
{
    push_arg(v, owned(s));
}

/// Appends a flag and a value in kbit/s.
fn push_kbits(v: &mut Vec<String>, flag: &str, b: u32)
    ensures
        strs(final(v)@) == strs(old(v)@) + seq![flag@, kbits(b)],
{
    let ghost v0 = strs(v@);
    push_lit(v, flag);
    let mut s = nat_to_string(b as u64);
    s.append("k");
    push_arg(v, s);
    assert(strs(v@) =~= v0 + seq![flag@, kbits(b)]);
}

/// A decimal number as a string.
fn num(n: u64) -> (s: String)
    ensures
        s@ == dec(n as nat),
{
    nat_to_string(n)
}

fn push_trim(v: &mut Vec<String>, p: &EncodeParams)
    ensures
        strs(final(v)@) == strs(old(v)@) + trim_args(p@),
{
    let ghost v0 = strs(v@);
    if let Some(ss) = &p.trim_start {
        push_lit(v, "-ss");
        push_arg(v, ss.clone());
    }
    let ghost v1 = strs(v@);
    assert(v1 =~= v0 + (match p@.trim_start {
        Some(s) => seq!["-ss"@, s],
        None => Seq::<Seq<char>>::empty(),
    }));
    if let Some(to) = &p.trim_end {
        push_lit(v, "-to");
        push_arg(v, to.clone());
    }
    assert(strs(v@) =~= v0 + trim_args(p@));
}

fn push_rate(v: &mut Vec<String>, p: &EncodeParams)
    ensures
        strs(final(v)@) == strs(old(v)@) + rate_args(p@),
{
    let ghost v0 = strs(v@);
    if let Some(crf) = p.crf {
        push_lit(v, "-crf");
        push_arg(v, num(crf as u64));
    }
    let ghost v1 = strs(v@);
    assert(v1 =~= v0 + (match p@.crf {
        Some(c) => seq!["-crf"@, dec(c as nat)],
        None => Seq::<Seq<char>>::empty(),
    }));
    if let Some(b) = p.video_bitrate {
        push_kbits(v, "-b:v", b);
    }
    let ghost v2 = strs(v@);
    assert(v2 =~= v1 + opt_kbits_arg("-b:v"@, p@.video_bitrate));
    if let Some(b) = p.max_bitrate {
        push_kbits(v, "-maxrate", b);
    }
    let ghost v3 = strs(v@);
    assert(v3 =~= v2 + opt_kbits_arg("-maxrate"@, p@.max_bitrate));
    if let Some(b) = p.bufsize {
        push_kbits(v, "-bufsize", b);
    }
    assert(strs(v@) =~= v3 + opt_kbits_arg("-bufsize"@, p@.bufsize));
    assert(strs(v@) =~= v0 + rate_args(p@));
}

fn push_speed(v: &mut Vec<String>, p: &EncodeParams)
    ensures
        strs(final(v)@) == strs(old(v)@) + speed_args(p@),
{
    let ghost v0 = strs(v@);
    match p.video_codec {
        VideoCodec::VP9 => {
            push_lit(v, "-deadline");
            push_lit(v, "good");
            push_lit(v, "-cpu-used");
            push_arg(v, num(p.preset.vp9_cpu_used() as u64));
        },
        VideoCodec::AV1 => {
            push_lit(v, "-cpu-used");
            push_arg(v, num(p.preset.av1_cpu_used() as u64));
        },
        VideoCodec::SVTAV1 => {
            push_lit(v, "-preset");
            push_arg(v, num(p.preset.svtav1_preset() as u64));
        },
        _ => {
            push_lit(v, "-preset");
            push_lit(v, p.preset.ffmpeg_name());
        },
    }
    assert(strs(v@) =~= v0 + speed_args(p@));
}

fn push_profile(v: &mut Vec<String>, p: &EncodeParams)
    ensures
        strs(final(v)@) == strs(old(v)@) + profile_args(p@),
{
    let ghost v0 = strs(v@);
    if let Some(profile) = &p.profile {
        let skip = match p.video_codec {
            VideoCodec::VP9 | VideoCodec::AV1 | VideoCodec::SVTAV1 => true,
            _ => false,
        };
        if !skip {
            push_lit(v, "-profile:v");
            push_lit(v, profile.ffmpeg_name());
        }
    }
    assert(strs(v@) =~= v0 + profile_args(p@));
}

/// The video filter chain, one entry per filter.
fn video_filter_parts(p: &EncodeParams) -> (parts: Vec<String>)
    ensures
        strs(parts@) == vf_parts(p@),
{
    let mut parts: Vec<String> = Vec::new();
    if let Some(deint) = &p.deinterlace {
        let name = match deint {
            DeinterlaceMethod::Yadif => owned("yadif"),
            DeinterlaceMethod::Bwdif => owned("bwdif"),
        };
        push_arg(&mut parts, name);
    }
    let mut scale = owned("scale=");
    scale.append(num(p.width as u64).as_str());
    scale.append(":");
    scale.append(num(p.height as u64).as_str());
    scale.append(":flags=");
    scale.append(p.scale_algorithm.ffmpeg_flag());
    push_arg(&mut parts, scale);
    let ghost head = strs(parts@);
    let ghost fs = p.video_filters@.map_values(|f: VideoFilter| f.ffmpeg_string_of());
    let mut i: usize = 0;
    while i < p.video_filters.len()
        invariant
            i <= p.video_filters@.len(),
            fs == p.video_filters@.map_values(|f: VideoFilter| f.ffmpeg_string_of()),
            strs(parts@) == head + fs.take(i as int),
        decreases p.video_filters@.len() - i,
    {
        push_arg(&mut parts, p.video_filters[i].to_ffmpeg_string());
        i = i + 1;
        assert(fs.take(i as int) =~= fs.take(i - 1).push(fs[i - 1]));
    }
    assert(fs.take(p.video_filters@.len() as int) =~= fs);
    assert(strs(parts@) =~= vf_parts(p@));
    parts
}

fn push_audio_filters(v: &mut Vec<String>, p: &EncodeParams)
    ensures
        strs(final(v)@) == strs(old(v)@) + af_args(p@),
{
    let ghost v0 = strs(v@);
    if p.audio_filters.len() > 0 {
        let ghost fs = p.audio_filters@.map_values(|f: AudioFilter| f.ffmpeg_string_of());
        let mut parts: Vec<String> = Vec::new();
        let mut i: usize = 0;
        while i < p.audio_filters.len()
            invariant
                i <= p.audio_filters@.len(),
                fs == p.audio_filters@.map_values(|f: AudioFilter| f.ffmpeg_string_of()),
                strs(parts@) == fs.take(i as int),
            decreases p.audio_filters@.len() - i,
        {
            push_arg(&mut parts, p.audio_filters[i].to_ffmpeg_string());
            i = i + 1;
            assert(fs.take(i as int) =~= fs.take(i - 1).push(fs[i - 1]));
        }
        assert(fs.take(p.audio_filters@.len() as int) =~= fs);
        push_lit(v, "-af");
        push_arg(v, join_strings(&parts, ","));
    }
    assert(strs(v@) =~= v0 + af_args(p@));
}

fn push_movflags(v: &mut Vec<String>, p: &EncodeParams)
    ensures
        strs(final(v)@) == strs(old(v)@) + movflag_args(p@),
{
    let ghost v0 = strs(v@);
    if p.movflags.len() > 0 {
        let ghost fs = p.movflags@.map_values(|f: MovFlag| f.ffmpeg_name_of());
        let mut parts: Vec<String> = Vec::new();
        let mut i: usize = 0;
        while i < p.movflags.len()
            invariant
                i <= p.movflags@.len(),
                fs == p.movflags@.map_values(|f: MovFlag| f.ffmpeg_name_of()),
                strs(parts@) == fs.take(i as int),
            decreases p.movflags@.len() - i,
        {
            push_lit(&mut parts, p.movflags[i].ffmpeg_name());
            i = i + 1;
            assert(fs.take(i as int) =~= fs.take(i - 1).push(fs[i - 1]));
        }
        assert(fs.take(p.movflags@.len() as int) =~= fs);
        push_lit(v, "-movflags");
        push_arg(v, join_strings(&parts, "+"));
    }
    assert(strs(v@) =~= v0 + movflag_args(p@));
}

fn push_metadata(v: &mut Vec<String>, p: &EncodeParams)
    ensures
        strs(final(v)@) == strs(old(v)@) + metadata_args(pairs_view(p.metadata@)),
{
    let ghost v0 = strs(v@);
    let ghost m = pairs_view(p.metadata@);
    let mut i: usize = 0;
    while i < p.metadata.len()
        invariant
            i <= p.metadata@.len(),
            m == pairs_view(p.metadata@),
            strs(v@) == v0 + metadata_args(m.take(i as int)),
        decreases p.metadata@.len() - i,
    {
        let ghost before = strs(v@);
        push_lit(v, "-metadata");
        let mut kv = p.metadata[i].0.clone();
        kv.append("=");
        kv.append(p.metadata[i].1.as_str());
        push_arg(v, kv);
        i = i + 1;
        assert(m.take(i as int).drop_last() =~= m.take(i - 1));
        assert(m.take(i as int).last() == m[i - 1]);
        assert(strs(v@) =~= v0 + metadata_args(m.take(i as int)));
    }
    assert(m.take(p.metadata@.len() as int) =~= m);
}

fn push_extra(v: &mut Vec<String>, p: &EncodeParams)
    ensures
        strs(final(v)@) == strs(old(v)@) + strs(p.extra_args@),
{
    let ghost v0 = strs(v@);
    let ghost e = strs(p.extra_args@);
    let mut i: usize = 0;
    while i < p.extra_args.len()
        invariant
            i <= p.extra_args@.len(),
            e == strs(p.extra_args@),
            strs(v@) == v0 + e.take(i as int),
        decreases p.extra_args@.len() - i,
    {
        push_arg(v, p.extra_args[i].clone());
        i = i + 1;
        assert(e.take(i as int) =~= e.take(i - 1).push(e[i - 1]));
        assert(strs(v@) =~= v0 + e.take(i as int));
    }
    assert(e.take(p.extra_args@.len() as int) =~= e);
}

fn push_codec_section(v: &mut Vec<String>, p: &EncodeParams)
    ensures
        strs(final(v)@) == strs(old(v)@) + codec_section(p@),
{
    let ghost v0 = strs(v@);
    push_trim(v, p);
    push_lit(v, "-c:v");
    push_lit(v, p.video_codec.ffmpeg_name());
    push_rate(v, p);
    push_speed(v, p);
    push_profile(v, p);
    assert(strs(v@) =~= v0 + codec_section(p@));
}

fn push_picture_section(v: &mut Vec<String>, p: &EncodeParams)
    ensures
        strs(final(v)@) == strs(old(v)@) + picture_section(p@),
{
    let ghost v0 = strs(v@);
    let parts = video_filter_parts(p);
    push_lit(v, "-vf");
    push_arg(v, join_strings(&parts, ","));
    push_lit(v, "-pix_fmt");
    push_lit(v, p.pixel_format.ffmpeg_name());
    if let FpsMode::Fixed(f) = p.fps {
        push_lit(v, "-r");
        push_arg(v, num(f as u64));
    }
    assert(strs(v@) =~= v0 + picture_section(p@));
}

fn push_audio(v: &mut Vec<String>, p: &EncodeParams)
    ensures
        strs(final(v)@) == strs(old(v)@) + audio_args(p@),
{
    let ghost v0 = strs(v@);
    push_lit(v, "-c:a");
    push_lit(v, p.audio_codec.ffmpeg_name());
    push_kbits(v, "-b:a", p.audio_bitrate);
    push_lit(v, "-ac");
    push_arg(v, num(p.audio_channels as u64));
    let rate: u32 = if p.audio_codec == AudioCodec::Opus && !(p.sample_rate == 48000
        || p.sample_rate == 24000 || p.sample_rate == 16000 || p.sample_rate == 12000
        || p.sample_rate == 8000) {
        48000
    } else {
        p.sample_rate
    };
    push_lit(v, "-ar");
    push_arg(v, num(rate as u64));
    assert(strs(v@) =~= v0 + audio_args(p@));
}

fn push_output_section(v: &mut Vec<String>, p: &EncodeParams)
    ensures
        strs(final(v)@) == strs(old(v)@) + output_section(p@),
{
    let ghost v0 = strs(v@);
    push_audio(v, p);
    push_audio_filters(v, p);
    push_movflags(v, p);
    let ghost v1 = strs(v@);
    if p.threads > 0 {
        push_lit(v, "-threads");
        push_arg(v, num(p.threads as u64));
    }
    assert(strs(v@) =~= v1 + thread_args(p@));
    push_metadata(v, p);
    push_extra(v, p);
    assert(strs(v@) =~= v0 + output_section(p@));
}

/// The arguments between `-i <input>` and the progress flags, for a video
/// or audio output.
fn push_encode_body(v: &mut Vec<String>, p: &EncodeParams)
    ensures
        strs(final(v)@) == strs(old(v)@) + encode_body(p@),
{
    let ghost v0 = strs(v@);
    push_codec_section(v, p);
    push_picture_section(v, p);
    push_output_section(v, p);
    assert(strs(v@) =~= v0 + encode_body(p@));
}

/// The palette filter graph of a GIF.
fn gif_filter_string(p: &EncodeParams) -> (s: String)
    ensures
        s@ == gif_filter(p@),
{
    let fps: u32 = match p.fps {
        FpsMode::Fixed(f) => f,
        FpsMode::SameAsSource => 10,
    };
    let mut vf = owned("fps=");
    vf.append(num(fps as u64).as_str());
    vf.append(",scale=");
    vf.append(num(p.width as u64).as_str());
    vf.append(":");
    vf.append(num(p.height as u64).as_str());
    vf.append(":flags=");
    vf.append(p.scale_algorithm.ffmpeg_flag());
    vf.append(",split[s0][s1];[s0]palettegen[p];[s1][p]paletteuse");
    let ghost base = vf@;
    let mut i: usize = 0;
    while i < p.video_filters.len()
        invariant
            i <= p.video_filters@.len(),
            vf@ == base + comma_each(p.video_filters@.take(i as int)),
        decreases p.video_filters@.len() - i,
    {
        vf.append(",");
        vf.append(p.video_filters[i].to_ffmpeg_string().as_str());
        i = i + 1;
        assert(p.video_filters@.take(i as int).drop_last() =~= p.video_filters@.take(i - 1));
        assert(vf@ =~= base + comma_each(p.video_filters@.take(i as int)));
    }
    assert(p.video_filters@.take(p.video_filters@.len() as int) =~= p.video_filters@);
    vf
}

/// The ffmpeg command for `params`, run as `ffmpeg` from PATH.
pub fn build_command(params: &EncodeParams, input: &str, output: &str) -> (c: FfmpegCommand)
    ensures
        c.program@ == program_of(None),
        strs(c.args@) == command_args(params@, input@, output@),
{
    build_command_with_ffmpeg(params, input, output, None)
}

/// The view of an optional string slice.
pub open spec fn opt_view(o: Option<&str>) -> Option<Seq<char>> {
    match o {
        Some(s) => Some(s@),
        None => None,
    }
}

/// The ffmpeg command for `params`: the given ffmpeg binary (or `ffmpeg`
/// from PATH) with [`command_args`].
pub fn build_command_with_ffmpeg(
    params: &EncodeParams,
    input: &str,
    output: &str,
    ffmpeg_path: Option<&str>,
) -> (c: FfmpegCommand)
    ensures
        c.program@ == program_of(opt_view(ffmpeg_path)),
        strs(c.args@) == command_args(params@, input@, output@),
{
    let program = match ffmpeg_path {
        Some(p) => owned(p),
        None => owned("ffmpeg"),
    };
    let mut args: Vec<String> = Vec::new();
    assert(strs(args@) =~= Seq::<Seq<char>>::empty());
    push_lit(&mut args, "-y");
    push_lit(&mut args, "-i");
    push_lit(&mut args, input);
    let ghost head = strs(args@);
    if params.container == Container::Gif {
        push_lit(&mut args, "-vf");
        push_arg(&mut args, gif_filter_string(params));
    } else {
        push_encode_body(&mut args, params);
    }
    assert(strs(args@) =~= head + command_body(params@));
    push_lit(&mut args, "-progress");
    push_lit(&mut args, "pipe:2");
    push_lit(&mut args, "-nostats");
    push_lit(&mut args, output);
    assert(strs(args@) =~= command_args(params@, input@, output@));
    FfmpegCommand { program, args }
}

// ───────────────────────── printable form ─────────────────────────

/// An argument as shown in a command line: in double quotes when it holds
/// a space.
pub open spec fn quote_arg(a: Seq<char>) -> Seq<char> {
    if has_char(a, ' ') {
        "\""@ + a + "\""@
    } else {
        a
    }
}

/// The program, a space, then the arguments separated by spaces.
pub open spec fn command_line(program: Seq<char>, args: Seq<Seq<char>>) -> Seq<char> {
    program + " "@ + join(args.map_values(|a: Seq<char>| quote_arg(a)), " "@)
}

/// The ffmpeg command line for `params`, as it would be typed, with
/// `ffmpeg` from PATH.
pub fn command_to_string(params: &EncodeParams, input: &str, output: &str) -> (s: String)
    ensures
        s@ == command_line(program_of(None), command_args(params@, input@, output@)),
{
    command_to_string_with_ffmpeg(params, input, output, None)
}

/// The ffmpeg command line for `params`, as it would be typed.
pub fn command_to_string_with_ffmpeg(
    params: &EncodeParams,
    input: &str,
    output: &str,
    ffmpeg_path: Option<&str>,
) -> (s: String)
    ensures
        s@ == command_line(program_of(opt_view(ffmpeg_path)), command_args(params@, input@, output@)),
{
    let cmd = build_command_with_ffmpeg(params, input, output, ffmpeg_path);
    let ghost a = strs(cmd.args@);
    let ghost q = a.map_values(|x: Seq<char>| quote_arg(x));
    let mut shown: Vec<String> = Vec::new();
    let mut i: usize = 0;
    while i < cmd.args.len()
        invariant
            i <= cmd.args@.len(),
            a == strs(cmd.args@),
            q == a.map_values(|x: Seq<char>| quote_arg(x)),
            strs(shown@) == q.take(i as int),
        decreases cmd.args@.len() - i,
    {
        let arg = &cmd.args[i];
        assert(a[i as int] == arg@);
        let item = if str_has_char(arg.as_str(), ' ') {
            let mut t = owned("\"");
            t.append(arg.as_str());
            t.append("\"");
            t
        } else {
            arg.clone()
        };
        proof {
            lemma_strs_push(shown@, item);
        }
        shown.push(item);
        i = i + 1;
        assert(q.take(i as int) =~= q.take(i - 1).push(q[i - 1]));
    }
    assert(q.take(cmd.args@.len() as int) =~= q);
    let mut s = cmd.program;
    s.append(" ");
    s.append(join_strings(&shown, " ").as_str());
    s
}

// ───────────────────────── laws ─────────────────────────

/// Argument order: `-y` comes before `-i <input>` (so ffmpeg never stops
/// to ask about overwriting), and the command always ends with progress
/// reporting on stderr and the output path as the very last argument.
pub proof fn lemma_command_frame(p: ParamsView, input: Seq<char>, output: Seq<char>)
    ensures
        command_args(p, input, output).len() >= 7,
        command_args(p, input, output).take(3) == seq!["-y"@, "-i"@, input],
        command_args(p, input, output).skip(command_args(p, input, output).len() - 4) == seq![
            "-progress"@,
            "pipe:2"@,
            "-nostats"@,
            output,
        ],
        command_args(p, input, output).last() == output,
{
    let a = command_args(p, input, output);
    assert(a.take(3) =~= seq!["-y"@, "-i"@, input]);
    assert(a.skip(a.len() - 4) =~= seq!["-progress"@, "pipe:2"@, "-nostats"@, output]);
}

/// A GIF is made by the palette filter graph alone: its command names no
/// video codec, audio codec or pixel format (unless the input or output
/// path is itself one of those flags).
pub proof fn lemma_gif_command(p: ParamsView, input: Seq<char>, output: Seq<char>)
    requires
        p.container == Container::Gif,
        input != "-c:v"@ && input != "-c:a"@ && input != "-pix_fmt"@,
        output != "-c:v"@ && output != "-c:a"@ && output != "-pix_fmt"@,
    ensures
        command_args(p, input, output) == seq![
            "-y"@,
            "-i"@,
            input,
            "-vf"@,
            gif_filter(p),
            "-progress"@,
            "pipe:2"@,
            "-nostats"@,
            output,
        ],
        !command_args(p, input, output).contains("-c:v"@),
        !command_args(p, input, output).contains("-c:a"@),
        !command_args(p, input, output).contains("-pix_fmt"@),
{
    let a = command_args(p, input, output);
    assert(a =~= seq![
        "-y"@,
        "-i"@,
        input,
        "-vf"@,
        gif_filter(p),
        "-progress"@,
        "pipe:2"@,
        "-nostats"@,
        output,
    ]);
    reveal_strlit("-y");
    reveal_strlit("-i");
    reveal_strlit("-vf");
    reveal_strlit("-progress");
    reveal_strlit("pipe:2");
    reveal_strlit("-nostats");
    reveal_strlit("-c:v");
    reveal_strlit("-c:a");
    reveal_strlit("-pix_fmt");
    reveal_strlit("fps=");
    let g = gif_filter(p);
    assert(g[0] == 'f');
    assert forall|bad: Seq<char>|
        bad == "-c:v"@ || bad == "-c:a"@ || bad == "-pix_fmt"@ implies !a.contains(bad) by {
        assert(bad[0] == '-');
        assert(bad[1] == 'c' || bad[1] == 'p');
        assert(bad[1] == 'p' ==> bad[2] == 'i');
        if a.contains(bad) {
            let i = choose|i: int| 0 <= i < a.len() && a[i] == bad;
            assert(a[i] == bad);
            if i == 0 {
                assert(a[i][1] == 'y');
            } else if i == 1 {
                assert(a[i][1] == 'i');
            } else if i == 3 {
                assert(a[i][1] == 'v');
            } else if i == 4 {
                assert(g[0] != bad[0]);
            } else if i == 5 {
                assert(a[i][2] == 'r');
            } else if i == 6 {
                assert(a[i][0] == 'p');
            } else if i == 7 {
                assert(a[i][1] == 'n');
            }
        }
    }
}

/// libopus only takes 8, 12, 16, 24 or 48 kHz: with Opus the rate passed
/// to ffmpeg is always one of those, and a supported rate, or any rate for
/// another codec, is passed unchanged.
pub proof fn lemma_opus_sample_rate(p: ParamsView)
    ensures
        p.audio_codec == AudioCodec::Opus ==> opus_rate_ok(effective_sample_rate(p)),
        (p.audio_codec != AudioCodec::Opus || opus_rate_ok(p.sample_rate))
            ==> effective_sample_rate(p) == p.sample_rate,
{
}

/// VP9 is paced by `-deadline good -cpu-used N`, libaom by `-cpu-used N`
/// and SVT-AV1 by a numeric `-preset`; none of the three is given an
/// H.264 `-profile:v`.
pub proof fn lemma_codec_specific_flags(p: ParamsView)
    ensures
        p.video_codec == VideoCodec::VP9 ==> speed_args(p).take(2) == seq!["-deadline"@, "good"@]
            && speed_args(p)[2] == "-cpu-used"@,
        p.video_codec == VideoCodec::AV1 ==> speed_args(p)[0] == "-cpu-used"@,
        p.video_codec == VideoCodec::SVTAV1 ==> speed_args(p) == seq![
            "-preset"@,
            dec(p.preset.svtav1_preset_of() as nat),
        ],
        !takes_profile(p.video_codec) ==> profile_args(p).len() == 0,
{
    if p.video_codec == VideoCodec::VP9 {
        assert(speed_args(p).take(2) =~= seq!["-deadline"@, "good"@]);
    }
}

/// `flag` is immediately followed by `value` somewhere in `args`.
pub open spec fn has_pair(args: Seq<Seq<char>>, flag: Seq<char>, value: Seq<char>) -> bool {
    exists|i: int| 0 <= i < args.len() - 1 && #[trigger] args[i] == flag && args[i + 1] == value
}

/// For a video or audio output the command encodes with exactly what was
/// chosen: `-c:v` names the video encoder of the chosen codec, `-pix_fmt`
/// the chosen pixel format, `-c:a` the audio encoder of the chosen audio
/// codec, `-b:a` the chosen audio bitrate in kbit/s, `-ac` the chosen
/// channel count and `-ar` the sample rate to use.
pub proof fn lemma_command_uses_choices(p: ParamsView, input: Seq<char>, output: Seq<char>)
    requires
        p.container != Container::Gif,
    ensures
        has_pair(command_args(p, input, output), "-c:v"@, p.video_codec.ffmpeg_name_of()),
        has_pair(command_args(p, input, output), "-pix_fmt"@, p.pixel_format.ffmpeg_name_of()),
        has_pair(command_args(p, input, output), "-c:a"@, p.audio_codec.ffmpeg_name_of()),
        has_pair(command_args(p, input, output), "-b:a"@, dec(p.audio_bitrate as nat) + "k"@),
        has_pair(command_args(p, input, output), "-ac"@, dec(p.audio_channels as nat)),
        has_pair(command_args(p, input, output), "-ar"@, dec(effective_sample_rate(p) as nat)),
{
    let a = command_args(p, input, output);
    let t = trim_args(p).len() as int;
    let c = codec_section(p).len() as int;
    let q = picture_section(p).len() as int;
    assert(a[3 + t] == "-c:v"@ && a[3 + t + 1] == p.video_codec.ffmpeg_name_of());
    assert(a[3 + c + 2] == "-pix_fmt"@ && a[3 + c + 2 + 1] == p.pixel_format.ffmpeg_name_of());
    assert(a[3 + c + q] == "-c:a"@ && a[3 + c + q + 1] == p.audio_codec.ffmpeg_name_of());
    assert(a[3 + c + q + 2] == "-b:a"@ && a[3 + c + q + 2 + 1] == dec(p.audio_bitrate as nat) + "k"@);
    assert(a[3 + c + q + 4] == "-ac"@ && a[3 + c + q + 4 + 1] == dec(p.audio_channels as nat));
    assert(a[3 + c + q + 6] == "-ar"@ && a[3 + c + q + 6 + 1] == dec(effective_sample_rate(p) as nat));
}

/// The sample rate given to ffmpeg: with Opus it is always one libopus
/// takes (48, 24, 16, 12 or 8 kHz): a rate among those is kept and any
/// other becomes 48 kHz; with any other codec the chosen rate is kept.
pub proof fn lemma_sample_rate_choice(p: ParamsView)
    ensures
        p.audio_codec != AudioCodec::Opus ==> effective_sample_rate(p) == p.sample_rate,
        p.audio_codec == AudioCodec::Opus ==> {
            let r = effective_sample_rate(p);
            r == 48000 || r == 24000 || r == 16000 || r == 12000 || r == 8000
        },
        p.audio_codec == AudioCodec::Opus && (p.sample_rate == 48000 || p.sample_rate == 24000
            || p.sample_rate == 16000 || p.sample_rate == 12000 || p.sample_rate == 8000)
            ==> effective_sample_rate(p) == p.sample_rate,
        p.audio_codec == AudioCodec::Opus && !(p.sample_rate == 48000 || p.sample_rate == 24000
            || p.sample_rate == 16000 || p.sample_rate == 12000 || p.sample_rate == 8000)
            ==> effective_sample_rate(p) == 48000,
{
}

// ───────────────────────── which flags appear ─────────────────────────

/// Text that does not start with `-`, so it is never taken for a flag.
pub open spec fn undashed(x: Seq<char>) -> bool {
    x.len() > 0 && x[0] != '-'
}

/// The flags whose presence the parameters decide one by one.
pub open spec fn is_optional_flag(x: Seq<char>) -> bool {
    ||| x == "-crf"@
    ||| x == "-b:v"@
    ||| x == "-maxrate"@
    ||| x == "-bufsize"@
    ||| x == "-threads"@
    ||| x == "-r"@
    ||| x == "-ss"@
    ||| x == "-to"@
    ||| x == "-af"@
}

/// Whether the parameters ask for the optional flag `x`: a CRF, a target
/// bitrate, a maximum bitrate, a buffer size, a thread count, a fixed
/// frame rate, a trim start or end, audio filters.
pub open spec fn flag_wanted(p: ParamsView, x: Seq<char>) -> bool {
    ||| x == "-crf"@ && p.crf is Some
    ||| x == "-b:v"@ && p.video_bitrate is Some
    ||| x == "-maxrate"@ && p.max_bitrate is Some
    ||| x == "-bufsize"@ && p.bufsize is Some
    ||| x == "-threads"@ && p.threads > 0
    ||| x == "-r"@ && p.fps is Fixed
    ||| x == "-ss"@ && p.trim_start is Some
    ||| x == "-to"@ && p.trim_end is Some
    ||| x == "-af"@ && p.audio_filters.len() > 0
}

/// An item is in `a + b` exactly when it is in `a` or in `b`.
pub broadcast proof fn lemma_concat_contains(a: Seq<Seq<char>>, b: Seq<Seq<char>>, x: Seq<char>)
    ensures
        #[trigger] (a + b).contains(x) == (a.contains(x) || b.contains(x)),
{
    if a.contains(x) {
        let i = choose|i: int| 0 <= i < a.len() && a[i] == x;
        assert((a + b)[i] == x);
    }
    if b.contains(x) {
        let i = choose|i: int| 0 <= i < b.len() && b[i] == x;
        assert((a + b)[a.len() + i] == x);
    }
    if (a + b).contains(x) {
        let i = choose|i: int| 0 <= i < (a + b).len() && (a + b)[i] == x;
        if i < a.len() {
            assert(a[i] == x);
        } else {
            assert(b[i - a.len()] == x);
        }
    }
}

proof fn lemma_dec_undashed(n: nat)
    ensures
        undashed(dec(n)),
    decreases n,
{
    if n >= 10 {
        lemma_dec_undashed(n / 10);
    }
}

proof fn lemma_join_undashed(list: Seq<Seq<char>>, sep: Seq<char>)
    requires
        list.len() > 0,
        undashed(list[0]),
    ensures
        undashed(join(list, sep)),
    decreases list.len(),
{
    if list.len() > 1 {
        lemma_join_undashed(list.drop_last(), sep);
    }
}

/// The names, numbers and filter graphs in a command never start with `-`.
proof fn lemma_values_undashed(p: ParamsView)
    ensures
        undashed(p.video_codec.ffmpeg_name_of()),
        undashed(p.audio_codec.ffmpeg_name_of()),
        undashed(p.preset.ffmpeg_name_of()),
        undashed(p.pixel_format.ffmpeg_name_of()),
        p.profile matches Some(pr) ==> undashed(pr.ffmpeg_name_of()),
        undashed(join(vf_parts(p), ","@)),
        p.audio_filters.len() > 0 ==> undashed(
            join(p.audio_filters.map_values(|f: AudioFilter| f.ffmpeg_string_of()), ","@),
        ),
        p.movflags.len() > 0 ==> undashed(
            join(p.movflags.map_values(|f: MovFlag| f.ffmpeg_name_of()), "+"@),
        ),
{
    reveal_strlit("libx264");
    reveal_strlit("libx265");
    reveal_strlit("libvpx-vp9");
    reveal_strlit("libaom-av1");
    reveal_strlit("libsvtav1");
    reveal_strlit("copy");
    reveal_strlit("aac");
    reveal_strlit("libmp3lame");
    reveal_strlit("libopus");
    reveal_strlit("libvorbis");
    reveal_strlit("flac");
    reveal_strlit("ultrafast");
    reveal_strlit("superfast");
    reveal_strlit("veryfast");
    reveal_strlit("faster");
    reveal_strlit("fast");
    reveal_strlit("medium");
    reveal_strlit("slow");
    reveal_strlit("slower");
    reveal_strlit("veryslow");
    reveal_strlit("baseline");
    reveal_strlit("main");
    reveal_strlit("high");
    reveal_strlit("yuv420p");
    reveal_strlit("yuv422p");
    reveal_strlit("yuv444p");
    reveal_strlit("nv12");
    reveal_strlit("rgb24");
    reveal_strlit("yadif");
    reveal_strlit("bwdif");
    reveal_strlit("scale=");
    reveal_strlit("faststart");
    reveal_strlit("frag_keyframe");
    reveal_strlit("volume=");
    reveal_strlit("loudnorm=I=-16:LRA=11:TP=-1.5");
    reveal_strlit("highpass=f=");
    reveal_strlit("lowpass=f=");
    let v = vf_parts(p);
    assert(undashed(v[0]));
    lemma_join_undashed(v, ","@);
    if p.audio_filters.len() > 0 {
        let a = p.audio_filters.map_values(|f: AudioFilter| f.ffmpeg_string_of());
        assert(undashed(a[0]));
        lemma_join_undashed(a, ","@);
    }
    if p.movflags.len() > 0 {
        let m = p.movflags.map_values(|f: MovFlag| f.ffmpeg_name_of());
        assert(undashed(m[0]));
        lemma_join_undashed(m, "+"@);
    }
}

proof fn lemma_metadata_args_lack(m: Seq<(Seq<char>, Seq<char>)>, x: Seq<char>)
    requires
        x != "-metadata"@,
        forall|i: int| 0 <= i < m.len() ==> #[trigger] m[i].0 + "="@ + m[i].1 != x,
    ensures
        !metadata_args(m).contains(x),
    decreases m.len(),
{
    broadcast use lemma_concat_contains;

    if m.len() > 0 {
        let front = m.drop_last();
        assert forall|i: int| 0 <= i < front.len() implies #[trigger] front[i].0 + "="@ + front[i].1
            != x by {
            assert(front[i] == m[i]);
        }
        lemma_metadata_args_lack(front, x);
        assert(m.last().0 + "="@ + m.last().1 != x) by {
            assert(m[m.len() - 1] == m.last());
        }
    }
}

/// An optional flag is none of the flags and words that every command has.
proof fn lemma_optional_flag_apart(x: Seq<char>)
    requires
        is_optional_flag(x),
    ensures
        x.len() > 0 && x[0] == '-',
        x != "-y"@,
        x != "-i"@,
        x != "-c:v"@,
        x != "-deadline"@,
        x != "good"@,
        x != "-cpu-used"@,
        x != "-preset"@,
        x != "-profile:v"@,
        x != "-vf"@,
        x != "-pix_fmt"@,
        x != "-c:a"@,
        x != "-b:a"@,
        x != "-ac"@,
        x != "-ar"@,
        x != "-movflags"@,
        x != "-metadata"@,
        x != "-progress"@,
        x != "pipe:2"@,
        x != "-nostats"@,
{
    reveal_strlit("-y");
    assert("-y"@.len() == 2);
    assert("-y"@[0] == '-');
    assert("-y"@[1] == 'y');
    reveal_strlit("-i");
    assert("-i"@.len() == 2);
    assert("-i"@[0] == '-');
    assert("-i"@[1] == 'i');
    reveal_strlit("-c:v");
    assert("-c:v"@.len() == 4);
    assert("-c:v"@[0] == '-');
    assert("-c:v"@[1] == 'c');
    assert("-c:v"@[2] == ':');
    assert("-c:v"@[3] == 'v');
    reveal_strlit("-deadline");
    assert("-deadline"@.len() == 9);
    assert("-deadline"@[0] == '-');
    assert("-deadline"@[1] == 'd');
    assert("-deadline"@[2] == 'e');
    assert("-deadline"@[3] == 'a');
    assert("-deadline"@[4] == 'd');
    assert("-deadline"@[5] == 'l');
    assert("-deadline"@[6] == 'i');
    assert("-deadline"@[7] == 'n');
    assert("-deadline"@[8] == 'e');
    reveal_strlit("good");
    assert("good"@.len() == 4);
    assert("good"@[0] == 'g');
    assert("good"@[1] == 'o');
    assert("good"@[2] == 'o');
    assert("good"@[3] == 'd');
    reveal_strlit("-cpu-used");
    assert("-cpu-used"@.len() == 9);
    assert("-cpu-used"@[0] == '-');
    assert("-cpu-used"@[1] == 'c');
    assert("-cpu-used"@[2] == 'p');
    assert("-cpu-used"@[3] == 'u');
    assert("-cpu-used"@[4] == '-');
    assert("-cpu-used"@[5] == 'u');
    assert("-cpu-used"@[6] == 's');
    assert("-cpu-used"@[7] == 'e');
    assert("-cpu-used"@[8] == 'd');
    reveal_strlit("-preset");
    assert("-preset"@.len() == 7);
    assert("-preset"@[0] == '-');
    assert("-preset"@[1] == 'p');
    assert("-preset"@[2] == 'r');
    assert("-preset"@[3] == 'e');
    assert("-preset"@[4] == 's');
    assert("-preset"@[5] == 'e');
    assert("-preset"@[6] == 't');
    reveal_strlit("-profile:v");
    assert("-profile:v"@.len() == 10);
    assert("-profile:v"@[0] == '-');
    assert("-profile:v"@[1] == 'p');
    assert("-profile:v"@[2] == 'r');
    assert("-profile:v"@[3] == 'o');
    assert("-profile:v"@[4] == 'f');
    assert("-profile:v"@[5] == 'i');
    assert("-profile:v"@[6] == 'l');
    assert("-profile:v"@[7] == 'e');
    assert("-profile:v"@[8] == ':');
    assert("-profile:v"@[9] == 'v');
    reveal_strlit("-vf");
    assert("-vf"@.len() == 3);
    assert("-vf"@[0] == '-');
    assert("-vf"@[1] == 'v');
    assert("-vf"@[2] == 'f');
    reveal_strlit("-pix_fmt");
    assert("-pix_fmt"@.len() == 8);
    assert("-pix_fmt"@[0] == '-');
    assert("-pix_fmt"@[1] == 'p');
    assert("-pix_fmt"@[2] == 'i');
    assert("-pix_fmt"@[3] == 'x');
    assert("-pix_fmt"@[4] == '_');
    assert("-pix_fmt"@[5] == 'f');
    assert("-pix_fmt"@[6] == 'm');
    assert("-pix_fmt"@[7] == 't');
    reveal_strlit("-c:a");
    assert("-c:a"@.len() == 4);
    assert("-c:a"@[0] == '-');
    assert("-c:a"@[1] == 'c');
    assert("-c:a"@[2] == ':');
    assert("-c:a"@[3] == 'a');
    reveal_strlit("-b:a");
    assert("-b:a"@.len() == 4);
    assert("-b:a"@[0] == '-');
    assert("-b:a"@[1] == 'b');
    assert("-b:a"@[2] == ':');
    assert("-b:a"@[3] == 'a');
    reveal_strlit("-ac");
    assert("-ac"@.len() == 3);
    assert("-ac"@[0] == '-');
    assert("-ac"@[1] == 'a');
    assert("-ac"@[2] == 'c');
    reveal_strlit("-ar");
    assert("-ar"@.len() == 3);
    assert("-ar"@[0] == '-');
    assert("-ar"@[1] == 'a');
    assert("-ar"@[2] == 'r');
    reveal_strlit("-movflags");
    assert("-movflags"@.len() == 9);
    assert("-movflags"@[0] == '-');
    assert("-movflags"@[1] == 'm');
    assert("-movflags"@[2] == 'o');
    assert("-movflags"@[3] == 'v');
    assert("-movflags"@[4] == 'f');
    assert("-movflags"@[5] == 'l');
    assert("-movflags"@[6] == 'a');
    assert("-movflags"@[7] == 'g');
    assert("-movflags"@[8] == 's');
    reveal_strlit("-metadata");
    assert("-metadata"@.len() == 9);
    assert("-metadata"@[0] == '-');
    assert("-metadata"@[1] == 'm');
    assert("-metadata"@[2] == 'e');
    assert("-metadata"@[3] == 't');
    assert("-metadata"@[4] == 'a');
    assert("-metadata"@[5] == 'd');
    assert("-metadata"@[6] == 'a');
    assert("-metadata"@[7] == 't');
    assert("-metadata"@[8] == 'a');
    reveal_strlit("-progress");
    assert("-progress"@.len() == 9);
    assert("-progress"@[0] == '-');
    assert("-progress"@[1] == 'p');
    assert("-progress"@[2] == 'r');
    assert("-progress"@[3] == 'o');
    assert("-progress"@[4] == 'g');
    assert("-progress"@[5] == 'r');
    assert("-progress"@[6] == 'e');
    assert("-progress"@[7] == 's');
    assert("-progress"@[8] == 's');
    reveal_strlit("pipe:2");
    assert("pipe:2"@.len() == 6);
    assert("pipe:2"@[0] == 'p');
    assert("pipe:2"@[1] == 'i');
    assert("pipe:2"@[2] == 'p');
    assert("pipe:2"@[3] == 'e');
    assert("pipe:2"@[4] == ':');
    assert("pipe:2"@[5] == '2');
    reveal_strlit("-nostats");
    assert("-nostats"@.len() == 8);
    assert("-nostats"@[0] == '-');
    assert("-nostats"@[1] == 'n');
    assert("-nostats"@[2] == 'o');
    assert("-nostats"@[3] == 's');
    assert("-nostats"@[4] == 't');
    assert("-nostats"@[5] == 'a');
    assert("-nostats"@[6] == 't');
    assert("-nostats"@[7] == 's');
    reveal_strlit("-crf");
    assert("-crf"@.len() == 4);
    assert("-crf"@[0] == '-');
    assert("-crf"@[1] == 'c');
    assert("-crf"@[2] == 'r');
    assert("-crf"@[3] == 'f');
    reveal_strlit("-b:v");
    assert("-b:v"@.len() == 4);
    assert("-b:v"@[0] == '-');
    assert("-b:v"@[1] == 'b');
    assert("-b:v"@[2] == ':');
    assert("-b:v"@[3] == 'v');
    reveal_strlit("-maxrate");
    assert("-maxrate"@.len() == 8);
    assert("-maxrate"@[0] == '-');
    assert("-maxrate"@[1] == 'm');
    assert("-maxrate"@[2] == 'a');
    assert("-maxrate"@[3] == 'x');
    assert("-maxrate"@[4] == 'r');
    assert("-maxrate"@[5] == 'a');
    assert("-maxrate"@[6] == 't');
    assert("-maxrate"@[7] == 'e');
    reveal_strlit("-bufsize");
    assert("-bufsize"@.len() == 8);
    assert("-bufsize"@[0] == '-');
    assert("-bufsize"@[1] == 'b');
    assert("-bufsize"@[2] == 'u');
    assert("-bufsize"@[3] == 'f');
    assert("-bufsize"@[4] == 's');
    assert("-bufsize"@[5] == 'i');
    assert("-bufsize"@[6] == 'z');
    assert("-bufsize"@[7] == 'e');
    reveal_strlit("-threads");
    assert("-threads"@.len() == 8);
    assert("-threads"@[0] == '-');
    assert("-threads"@[1] == 't');
    assert("-threads"@[2] == 'h');
    assert("-threads"@[3] == 'r');
    assert("-threads"@[4] == 'e');
    assert("-threads"@[5] == 'a');
    assert("-threads"@[6] == 'd');
    assert("-threads"@[7] == 's');
    reveal_strlit("-r");
    assert("-r"@.len() == 2);
    assert("-r"@[0] == '-');
    assert("-r"@[1] == 'r');
    reveal_strlit("-ss");
    assert("-ss"@.len() == 3);
    assert("-ss"@[0] == '-');
    assert("-ss"@[1] == 's');
    assert("-ss"@[2] == 's');
    reveal_strlit("-to");
    assert("-to"@.len() == 3);
    assert("-to"@[0] == '-');
    assert("-to"@[1] == 't');
    assert("-to"@[2] == 'o');
    reveal_strlit("-af");
    assert("-af"@.len() == 3);
    assert("-af"@[0] == '-');
    assert("-af"@[1] == 'a');
    assert("-af"@[2] == 'f');
}

/// For a video or audio output, each optional flag (`-crf`, `-b:v`,
/// `-maxrate`, `-bufsize`, `-threads`, `-r`, `-ss`, `-to`, `-af`) is in
/// the command exactly when the parameters ask for it, as long as no path,
/// trim point, extra argument or metadata entry is itself that flag. The
/// arguments of [`build_command_with_ffmpeg`] and [`build_command`] are
/// [`command_args`], so this holds of them.
pub proof fn lemma_optional_flags(p: ParamsView, input: Seq<char>, output: Seq<char>, x: Seq<char>)
    requires
        p.container != Container::Gif,
        is_optional_flag(x),
        input != x,
        output != x,
        p.trim_start != Some(x),
        p.trim_end != Some(x),
        !p.extra_args.contains(x),
        forall|i: int| 0 <= i < p.metadata.len() ==> #[trigger] p.metadata[i].0 + "="@ + p.metadata[i].1 != x,
    ensures
        command_args(p, input, output).contains(x) == flag_wanted(p, x),
{
    broadcast use lemma_concat_contains;

    reveal_strlit("-crf");
    reveal_strlit("-b:v");
    reveal_strlit("-maxrate");
    reveal_strlit("-bufsize");
    reveal_strlit("-threads");
    reveal_strlit("-r");
    reveal_strlit("-ss");
    reveal_strlit("-to");
    reveal_strlit("-af");
    reveal_strlit("-y");
    reveal_strlit("-i");
    reveal_strlit("-c:v");
    reveal_strlit("-deadline");
    reveal_strlit("good");
    reveal_strlit("-cpu-used");
    reveal_strlit("-preset");
    reveal_strlit("-profile:v");
    reveal_strlit("-vf");
    reveal_strlit("-pix_fmt");
    reveal_strlit("-c:a");
    reveal_strlit("-b:a");
    reveal_strlit("-ac");
    reveal_strlit("-ar");
    reveal_strlit("-movflags");
    reveal_strlit("-metadata");
    reveal_strlit("-progress");
    reveal_strlit("pipe:2");
    reveal_strlit("-nostats");
    lemma_optional_flag_apart(x);
    lemma_values_undashed(p);
    lemma_metadata_args_lack(p.metadata, x);
    match p.crf {
        Some(c) => lemma_dec_undashed(c as nat),
        None => {},
    }
    match p.video_bitrate {
        Some(b) => lemma_dec_undashed(b as nat),
        None => {},
    }
    match p.max_bitrate {
        Some(b) => lemma_dec_undashed(b as nat),
        None => {},
    }
    match p.bufsize {
        Some(b) => lemma_dec_undashed(b as nat),
        None => {},
    }
    match p.fps {
        FpsMode::Fixed(f) => lemma_dec_undashed(f as nat),
        FpsMode::SameAsSource => {},
    }
    lemma_dec_undashed(p.preset.vp9_cpu_used_of() as nat);
    lemma_dec_undashed(p.preset.av1_cpu_used_of() as nat);
    lemma_dec_undashed(p.preset.svtav1_preset_of() as nat);
    lemma_dec_undashed(p.audio_bitrate as nat);
    lemma_dec_undashed(p.audio_channels as nat);
    lemma_dec_undashed(effective_sample_rate(p) as nat);
    lemma_dec_undashed(p.threads as nat);
    let head = seq!["-y"@, "-i"@, input];
    let tail = seq!["-progress"@, "pipe:2"@, "-nostats"@, output];
    assert(!head.contains(x));
    assert(!tail.contains(x));
    assert(trim_args(p).contains(x) == ((x == "-ss"@ && p.trim_start is Some) || (x == "-to"@
        && p.trim_end is Some))) by {
        if x == "-ss"@ && p.trim_start is Some {
            assert(trim_args(p)[0] == x);
        }
        if x == "-to"@ && p.trim_end is Some {
            let t = trim_args(p);
            assert(t[t.len() - 2] == x);
        }
    }
    assert(!seq!["-c:v"@, p.video_codec.ffmpeg_name_of()].contains(x));
    let crf_part = match p.crf {
        Some(c) => seq!["-crf"@, dec(c as nat)],
        None => Seq::<Seq<char>>::empty(),
    };
    assert(crf_part.contains(x) == (x == "-crf"@ && p.crf is Some)) by {
        if x == "-crf"@ && p.crf is Some {
            assert(crf_part[0] == x);
        }
    }
    assert(opt_kbits_arg("-b:v"@, p.video_bitrate).contains(x) == (x == "-b:v"@ && p.video_bitrate is Some)) by {
        if x == "-b:v"@ && p.video_bitrate is Some {
            assert(opt_kbits_arg("-b:v"@, p.video_bitrate)[0] == x);
        }
    }
    assert(opt_kbits_arg("-maxrate"@, p.max_bitrate).contains(x) == (x == "-maxrate"@ && p.max_bitrate is Some)) by {
        if x == "-maxrate"@ && p.max_bitrate is Some {
            assert(opt_kbits_arg("-maxrate"@, p.max_bitrate)[0] == x);
        }
    }
    assert(opt_kbits_arg("-bufsize"@, p.bufsize).contains(x) == (x == "-bufsize"@ && p.bufsize is Some)) by {
        if x == "-bufsize"@ && p.bufsize is Some {
            assert(opt_kbits_arg("-bufsize"@, p.bufsize)[0] == x);
        }
    }
    assert(!speed_args(p).contains(x));
    assert(!profile_args(p).contains(x));
    assert(!seq!["-vf"@, join(vf_parts(p), ","@), "-pix_fmt"@, p.pixel_format.ffmpeg_name_of()].contains(x));
    assert(fps_args(p).contains(x) == (x == "-r"@ && p.fps is Fixed)) by {
        if x == "-r"@ && p.fps is Fixed {
            assert(fps_args(p)[0] == x);
        }
    }
    assert(!audio_args(p).contains(x));
    assert(af_args(p).contains(x) == (x == "-af"@ && p.audio_filters.len() > 0)) by {
        if x == "-af"@ && p.audio_filters.len() > 0 {
            assert(af_args(p)[0] == x);
        }
    }
    assert(!movflag_args(p).contains(x));
    assert(thread_args(p).contains(x) == (x == "-threads"@ && p.threads > 0)) by {
        if x == "-threads"@ && p.threads > 0 {
            assert(thread_args(p)[0] == x);
        }
    }
}


} // verus!
