//! The presets that ship with the library.
use vstd::prelude::*;

use crate::enums::{
    AudioCodec, Container, DeinterlaceMethod, FpsMode, MovFlag, PixelFormat, PresetCategory, PresetSpeed,
    VideoCodec,
};
use crate::job::{default_params, EncodeParams, ParamsView, Preset, PresetView};
use crate::text::{owned, strs};

verus! {

/// The number of built-in presets.
pub const BUILTIN_COUNT: usize = 9;

/// The built-in preset at position `i` (0 to 8).
pub open spec fn builtin_preset(i: int) -> PresetView {
    if i == 0 {
        PresetView {
            id: "default"@,
            name: "Padrão (H.264 CRF 19)"@,
            description: "Configuração padrão: H.264, yadif deinterlace, faststart, CRF 19, 128k audio"@,
            category: PresetCategory::Video,
            params: ParamsView {
                video_codec: VideoCodec::H264,
                width: 1920,
                height: 1080,
                crf: Some(19),
                deinterlace: Some(DeinterlaceMethod::Yadif),
                pixel_format: PixelFormat::Yuv420p,
                movflags: seq![MovFlag::FastStart],
                threads: 2,
                preset: PresetSpeed::Medium,
                audio_bitrate: 128,
                ..default_params()
            },
        }
    } else if i == 1 {
        PresetView {
            id: "web-h264"@,
            name: "Web Video (H.264)"@,
            description: "Optimized for web streaming: H.264, yuv420p, faststart, CRF 23"@,
            category: PresetCategory::Video,
            params: ParamsView {
                video_codec: VideoCodec::H264,
                crf: Some(23),
                pixel_format: PixelFormat::Yuv420p,
                movflags: seq![MovFlag::FastStart],
                threads: 0,
                ..default_params()
            },
        }
    } else if i == 2 {
        PresetView {
            id: "web-h265"@,
            name: "Web Video (H.265)"@,
            description: "Modern HEVC for web: H.265, yuv420p, faststart, CRF 28"@,
            category: PresetCategory::Video,
            params: ParamsView {
                video_codec: VideoCodec::H265,
                crf: Some(28),
                pixel_format: PixelFormat::Yuv420p,
                movflags: seq![MovFlag::FastStart],
                threads: 0,
                ..default_params()
            },
        }
    } else if i == 3 {
        PresetView {
            id: "web-vp9"@,
            name: "Web Video (VP9)"@,
            description: "Royalty-free VP9 for WebM: CRF 30, best for YouTube/Firefox"@,
            category: PresetCategory::Video,
            params: ParamsView {
                video_codec: VideoCodec::VP9,
                container: Container::Webm,
                crf: Some(30),
                pixel_format: PixelFormat::Yuv420p,
                threads: 0,
                ..default_params()
            },
        }
    } else if i == 4 {
        PresetView {
            id: "archive-h264"@,
            name: "Archive (H.264 HQ)"@,
            description: "High quality archival: CRF 16, slow preset, no filtering"@,
            category: PresetCategory::Video,
            params: ParamsView {
                video_codec: VideoCodec::H264,
                crf: Some(16),
                preset: PresetSpeed::Slow,
                pixel_format: PixelFormat::Yuv420p,
                threads: 0,
                ..default_params()
            },
        }
    } else if i == 5 {
        PresetView {
            id: "audio-mp3"@,
            name: "Audio MP3 (192k)"@,
            description: "Extract/convert to MP3: 192kbps, 44.1kHz, stereo"@,
            category: PresetCategory::Audio,
            params: ParamsView {
                video_codec: VideoCodec::Copy,
                audio_codec: AudioCodec::Mp3,
                container: Container::Mp3,
                audio_bitrate: 192,
                sample_rate: 44100,
                threads: 0,
                ..default_params()
            },
        }
    } else if i == 6 {
        PresetView {
            id: "audio-aac"@,
            name: "Audio AAC (128k)"@,
            description: "Extract/convert to AAC: 128kbps, 44.1kHz, stereo"@,
            category: PresetCategory::Audio,
            params: ParamsView {
                video_codec: VideoCodec::Copy,
                audio_codec: AudioCodec::Aac,
                container: Container::Mp4,
                audio_bitrate: 128,
                sample_rate: 44100,
                threads: 0,
                ..default_params()
            },
        }
    } else if i == 7 {
        PresetView {
            id: "audio-opus"@,
            name: "Audio Opus (96k)"@,
            description: "High-efficiency Opus: 96kbps, best quality-per-bit"@,
            category: PresetCategory::Audio,
            params: ParamsView {
                video_codec: VideoCodec::Copy,
                audio_codec: AudioCodec::Opus,
                container: Container::Mkv,
                audio_bitrate: 96,
                sample_rate: 48000,
                threads: 0,
                ..default_params()
            },
        }
    } else {
        PresetView {
            id: "gif"@,
            name: "Animated GIF"@,
            description: "Convert video to GIF: 480p, 15fps, optimized palette"@,
            category: PresetCategory::Image,
            params: ParamsView {
                video_codec: VideoCodec::Copy,
                container: Container::Gif,
                width: 480,
                height: 270,
                fps: FpsMode::Fixed(15),
                crf: None,
                pixel_format: PixelFormat::Yuv420p,
                threads: 0,
                ..default_params()
            },
        }
    }
}

/// The ids of the built-in presets, in order.
pub open spec fn builtin_ids() -> Seq<Seq<char>> {
    Seq::new(9, |i: int| builtin_preset(i).id)
}

/// Whether `id` names a built-in preset.
pub open spec fn is_builtin_id(id: Seq<char>) -> bool {
    builtin_ids().contains(id)
}

/// The presets that ship with the library: the legacy default (H.264
/// CRF 19 with yadif), web H.264/H.265/VP9, archival H.264, MP3/AAC/Opus
/// audio, and an animated GIF.
pub fn builtin_presets() -> (r: Vec<Preset>)
    ensures
        r@.len() == 9,
        forall|i: int| 0 <= i < 9 ==> #[trigger] r@[i]@ == builtin_preset(i),
{
    let mut r: Vec<Preset> = Vec::new();
    r.push(preset_0());
    r.push(preset_1());
    r.push(preset_2());
    r.push(preset_3());
    r.push(preset_4());
    r.push(preset_5());
    r.push(preset_6());
    r.push(preset_7());
    r.push(preset_8());
    proof {
        assert forall|i: int| 0 <= i < 9 implies #[trigger] r@[i]@ == builtin_preset(i) by {
            if i == 0 {
            } else if i == 1 {
            } else if i == 2 {
            } else if i == 3 {
            } else if i == 4 {
            } else if i == 5 {
            } else if i == 6 {
            } else if i == 7 {
            } else {
            }
        }
    }
    r
}

fn preset_0() -> (p: Preset)
    ensures
        p@ == builtin_preset(0),
{
    let mut params = EncodeParams::default();
    params.video_codec = VideoCodec::H264;
    params.width = 1920;
    params.height = 1080;
    params.crf = Some(19);
    params.deinterlace = Some(DeinterlaceMethod::Yadif);
    params.pixel_format = PixelFormat::Yuv420p;
    params.movflags = vec![MovFlag::FastStart];
    assert(params.movflags@ =~= seq![MovFlag::FastStart]);
    params.threads = 2;
    params.preset = PresetSpeed::Medium;
    params.audio_bitrate = 128;
    let p = Preset {
        id: owned("default"),
        name: owned("Padrão (H.264 CRF 19)"),
        description: owned("Configuração padrão: H.264, yadif deinterlace, faststart, CRF 19, 128k audio"),
        category: PresetCategory::Video,
        params,
    };
    assert(p@.params =~= builtin_preset(0).params);
    p
}

fn preset_1() -> (p: Preset)
    ensures
        p@ == builtin_preset(1),
{
    let mut params = EncodeParams::default();
    params.video_codec = VideoCodec::H264;
    params.crf = Some(23);
    params.pixel_format = PixelFormat::Yuv420p;
    params.movflags = vec![MovFlag::FastStart];
    assert(params.movflags@ =~= seq![MovFlag::FastStart]);
    params.threads = 0;
    let p = Preset {
        id: owned("web-h264"),
        name: owned("Web Video (H.264)"),
        description: owned("Optimized for web streaming: H.264, yuv420p, faststart, CRF 23"),
        category: PresetCategory::Video,
        params,
    };
    assert(p@.params =~= builtin_preset(1).params);
    p
}

fn preset_2() -> (p: Preset)
    ensures
        p@ == builtin_preset(2),
{
    let mut params = EncodeParams::default();
    params.video_codec = VideoCodec::H265;
    params.crf = Some(28);
    params.pixel_format = PixelFormat::Yuv420p;
    params.movflags = vec![MovFlag::FastStart];
    assert(params.movflags@ =~= seq![MovFlag::FastStart]);
    params.threads = 0;
    let p = Preset {
        id: owned("web-h265"),
        name: owned("Web Video (H.265)"),
        description: owned("Modern HEVC for web: H.265, yuv420p, faststart, CRF 28"),
        category: PresetCategory::Video,
        params,
    };
    assert(p@.params =~= builtin_preset(2).params);
    p
}

fn preset_3() -> (p: Preset)
    ensures
        p@ == builtin_preset(3),
{
    let mut params = EncodeParams::default();
    params.video_codec = VideoCodec::VP9;
    params.container = Container::Webm;
    params.crf = Some(30);
    params.pixel_format = PixelFormat::Yuv420p;
    params.threads = 0;
    let p = Preset {
        id: owned("web-vp9"),
        name: owned("Web Video (VP9)"),
        description: owned("Royalty-free VP9 for WebM: CRF 30, best for YouTube/Firefox"),
        category: PresetCategory::Video,
        params,
    };
    assert(p@.params =~= builtin_preset(3).params);
    p
}

fn preset_4() -> (p: Preset)
    ensures
        p@ == builtin_preset(4),
{
    let mut params = EncodeParams::default();
    params.video_codec = VideoCodec::H264;
    params.crf = Some(16);
    params.preset = PresetSpeed::Slow;
    params.pixel_format = PixelFormat::Yuv420p;
    params.threads = 0;
    let p = Preset {
        id: owned("archive-h264"),
        name: owned("Archive (H.264 HQ)"),
        description: owned("High quality archival: CRF 16, slow preset, no filtering"),
        category: PresetCategory::Video,
        params,
    };
    assert(p@.params =~= builtin_preset(4).params);
    p
}

fn preset_5() -> (p: Preset)
    ensures
        p@ == builtin_preset(5),
{
    let mut params = EncodeParams::default();
    params.video_codec = VideoCodec::Copy;
    params.audio_codec = AudioCodec::Mp3;
    params.container = Container::Mp3;
    params.audio_bitrate = 192;
    params.sample_rate = 44100;
    params.threads = 0;
    let p = Preset {
        id: owned("audio-mp3"),
        name: owned("Audio MP3 (192k)"),
        description: owned("Extract/convert to MP3: 192kbps, 44.1kHz, stereo"),
        category: PresetCategory::Audio,
        params,
    };
    assert(p@.params =~= builtin_preset(5).params);
    p
}

fn preset_6() -> (p: Preset)
    ensures
        p@ == builtin_preset(6),
{
    let mut params = EncodeParams::default();
    params.video_codec = VideoCodec::Copy;
    params.audio_codec = AudioCodec::Aac;
    params.container = Container::Mp4;
    params.audio_bitrate = 128;
    params.sample_rate = 44100;
    params.threads = 0;
    let p = Preset {
        id: owned("audio-aac"),
        name: owned("Audio AAC (128k)"),
        description: owned("Extract/convert to AAC: 128kbps, 44.1kHz, stereo"),
        category: PresetCategory::Audio,
        params,
    };
    assert(p@.params =~= builtin_preset(6).params);
    p
}

fn preset_7() -> (p: Preset)
    ensures
        p@ == builtin_preset(7),
{
    let mut params = EncodeParams::default();
    params.video_codec = VideoCodec::Copy;
    params.audio_codec = AudioCodec::Opus;
    params.container = Container::Mkv;
    params.audio_bitrate = 96;
    params.sample_rate = 48000;
    params.threads = 0;
    let p = Preset {
        id: owned("audio-opus"),
        name: owned("Audio Opus (96k)"),
        description: owned("High-efficiency Opus: 96kbps, best quality-per-bit"),
        category: PresetCategory::Audio,
        params,
    };
    assert(p@.params =~= builtin_preset(7).params);
    p
}

fn preset_8() -> (p: Preset)
    ensures
        p@ == builtin_preset(8),
{
    let mut params = EncodeParams::default();
    params.video_codec = VideoCodec::Copy;
    params.container = Container::Gif;
    params.width = 480;
    params.height = 270;
    params.fps = FpsMode::Fixed(15);
    params.crf = None;
    params.pixel_format = PixelFormat::Yuv420p;
    params.threads = 0;
    let p = Preset {
        id: owned("gif"),
        name: owned("Animated GIF"),
        description: owned("Convert video to GIF: 480p, 15fps, optimized palette"),
        category: PresetCategory::Image,
        params,
    };
    assert(p@.params =~= builtin_preset(8).params);
    p
}

/// The ids of the built-in presets, in order (those that cannot be
/// overwritten or deleted).
pub fn get_builtin_preset_ids() -> (r: Vec<String>)
    ensures
        strs(r@) == builtin_ids(),
{
    let presets = builtin_presets();
    let mut r: Vec<String> = Vec::new();
    let mut i: usize = 0;
    while i < presets.len()
        invariant
            i <= presets@.len() == 9,
            forall|j: int| 0 <= j < 9 ==> #[trigger] presets@[j]@ == builtin_preset(j),
            strs(r@) == builtin_ids().take(i as int),
        decreases presets@.len() - i,
    {
        assert(presets@[i as int]@ == builtin_preset(i as int));
        assert(builtin_ids()[i as int] == builtin_preset(i as int).id);
        let id = presets[i].id.clone();
        proof {
            crate::text::lemma_strs_push(r@, id);
        }
        r.push(id);
        i = i + 1;
        assert(builtin_ids().take(i as int) =~= builtin_ids().take(i - 1).push(builtin_ids()[i - 1]));
    }
    assert(builtin_ids().take(9) =~= builtin_ids());
    r
}

/// The built-in presets have distinct ids, the legacy `default` preset is
/// first, and every one of them but the GIF (which only remuxes through a
/// palette) sets a rate control: a CRF or a video bitrate.
pub proof fn lemma_builtin_presets_well_formed()
    ensures
        forall|i: int, j: int|
            0 <= i < j < 9 ==> #[trigger] builtin_preset(i).id != #[trigger] builtin_preset(j).id,
        forall|i: int|
            0 <= i < 9 && #[trigger] builtin_preset(i).id != "gif"@ ==> builtin_preset(
                i,
            ).params.crf is Some || builtin_preset(i).params.video_bitrate is Some,
        builtin_preset(0).id == "default"@,
        builtin_preset(1).id == "web-h264"@,
{
    reveal_strlit("default");
    reveal_strlit("web-h264");
    reveal_strlit("web-h265");
    reveal_strlit("web-vp9");
    reveal_strlit("archive-h264");
    reveal_strlit("audio-mp3");
    reveal_strlit("audio-aac");
    reveal_strlit("audio-opus");
    reveal_strlit("gif");
    assert("default"@[0] != "web-vp9"@[0]);
    assert("web-h264"@[7] != "web-h265"@[7]);
    assert("audio-mp3"@[6] != "audio-aac"@[6]);
    assert forall|i: int, j: int|
        0 <= i < j < 9 implies #[trigger] builtin_preset(i).id != #[trigger] builtin_preset(j).id by {
        let a = builtin_preset(i).id;
        let b = builtin_preset(j).id;
        if a.len() == b.len() {
            if i == 0 && j == 3 {
                assert(a[0] != b[0]);
            } else if i == 1 && j == 2 {
                assert(a[7] != b[7]);
            } else if i == 5 && j == 6 {
                assert(a[6] != b[6]);
            }
        }
    }
}

} // verus!
