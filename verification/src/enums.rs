//! Domain enums: codecs, containers, encoder settings and filters, with the
//! names ffmpeg knows them by and the labels they are shown with.
use vstd::prelude::*;

use crate::text::{
    abs, dec, fixed2, fixed2_signed, fixed2_to_string, fixed6, fixed6_to_string, int_to_string,
    nat_to_string, owned, signed_dec,
};

verus! {

/// Video codecs that ffmpeg can encode with.
#[derive(Debug, Clone, Copy, PartialEq, Eq, Structural)]
pub enum VideoCodec {
    H264,
    H265,
    VP9,
    AV1,
    SVTAV1,
    Copy,
}

impl VideoCodec {
    /// The name ffmpeg knows each variant by.
    pub open spec fn ffmpeg_name_of(self) -> Seq<char> {
        match self {
            VideoCodec::H264 => "libx264"@,
            VideoCodec::H265 => "libx265"@,
            VideoCodec::VP9 => "libvpx-vp9"@,
            VideoCodec::AV1 => "libaom-av1"@,
            VideoCodec::SVTAV1 => "libsvtav1"@,
            VideoCodec::Copy => "copy"@,
        }
    }

    /// The name ffmpeg knows it by.
    pub fn ffmpeg_name(&self) -> (r: &'static str)
        ensures
            r@ == self.ffmpeg_name_of(),
    {
        match self {
            VideoCodec::H264 => "libx264",
            VideoCodec::H265 => "libx265",
            VideoCodec::VP9 => "libvpx-vp9",
            VideoCodec::AV1 => "libaom-av1",
            VideoCodec::SVTAV1 => "libsvtav1",
            VideoCodec::Copy => "copy",
        }
    }

    /// The label each variant is shown with.
    pub open spec fn label_of(self) -> Seq<char> {
        match self {
            VideoCodec::H264 => "H.264 (libx264)"@,
            VideoCodec::H265 => "H.265 / HEVC (libx265)"@,
            VideoCodec::VP9 => "VP9 (libvpx-vp9)"@,
            VideoCodec::AV1 => "AV1 (libaom-av1)"@,
            VideoCodec::SVTAV1 => "AV1 (libsvtav1)"@,
            VideoCodec::Copy => "Copy (no re-encode)"@,
        }
    }

    /// The label it is shown with.
    pub fn label(&self) -> (r: &'static str)
        ensures
            r@ == self.label_of(),
    {
        match self {
            VideoCodec::H264 => "H.264 (libx264)",
            VideoCodec::H265 => "H.265 / HEVC (libx265)",
            VideoCodec::VP9 => "VP9 (libvpx-vp9)",
            VideoCodec::AV1 => "AV1 (libaom-av1)",
            VideoCodec::SVTAV1 => "AV1 (libsvtav1)",
            VideoCodec::Copy => "Copy (no re-encode)",
        }
    }

    /// Every variant, in declaration order.
    pub const ALL: [VideoCodec; 6] = [VideoCodec::H264, VideoCodec::H265, VideoCodec::VP9, VideoCodec::AV1, VideoCodec::SVTAV1, VideoCodec::Copy];

}

/// A container's extension holds no path separator.
pub proof fn lemma_extensions_have_no_separator(c: Container)
    ensures
        crate::session::no_separator(c.extension_of()),
{
    reveal_strlit("mp4");
    reveal_strlit("mkv");
    reveal_strlit("webm");
    reveal_strlit("mov");
    reveal_strlit("avi");
    reveal_strlit("gif");
    reveal_strlit("mp3");
}

/// Audio codecs that ffmpeg can encode with.
#[derive(Debug, Clone, Copy, PartialEq, Eq, Structural)]
pub enum AudioCodec {
    Aac,
    Mp3,
    Opus,
    Vorbis,
    Flac,
    Copy,
}

impl AudioCodec {
    /// The name ffmpeg knows each variant by.
    pub open spec fn ffmpeg_name_of(self) -> Seq<char> {
        match self {
            AudioCodec::Aac => "aac"@,
            AudioCodec::Mp3 => "libmp3lame"@,
            AudioCodec::Opus => "libopus"@,
            AudioCodec::Vorbis => "libvorbis"@,
            AudioCodec::Flac => "flac"@,
            AudioCodec::Copy => "copy"@,
        }
    }

    /// The name ffmpeg knows it by.
    pub fn ffmpeg_name(&self) -> (r: &'static str)
        ensures
            r@ == self.ffmpeg_name_of(),
    {
        match self {
            AudioCodec::Aac => "aac",
            AudioCodec::Mp3 => "libmp3lame",
            AudioCodec::Opus => "libopus",
            AudioCodec::Vorbis => "libvorbis",
            AudioCodec::Flac => "flac",
            AudioCodec::Copy => "copy",
        }
    }

    /// The label each variant is shown with.
    pub open spec fn label_of(self) -> Seq<char> {
        match self {
            AudioCodec::Aac => "AAC"@,
            AudioCodec::Mp3 => "MP3 (libmp3lame)"@,
            AudioCodec::Opus => "Opus (libopus)"@,
            AudioCodec::Vorbis => "Vorbis (libvorbis)"@,
            AudioCodec::Flac => "FLAC"@,
            AudioCodec::Copy => "Copy (no re-encode)"@,
        }
    }

    /// The label it is shown with.
    pub fn label(&self) -> (r: &'static str)
        ensures
            r@ == self.label_of(),
    {
        match self {
            AudioCodec::Aac => "AAC",
            AudioCodec::Mp3 => "MP3 (libmp3lame)",
            AudioCodec::Opus => "Opus (libopus)",
            AudioCodec::Vorbis => "Vorbis (libvorbis)",
            AudioCodec::Flac => "FLAC",
            AudioCodec::Copy => "Copy (no re-encode)",
        }
    }

    /// Every variant, in declaration order.
    pub const ALL: [AudioCodec; 6] = [AudioCodec::Aac, AudioCodec::Mp3, AudioCodec::Opus, AudioCodec::Vorbis, AudioCodec::Flac, AudioCodec::Copy];

}

/// Output containers; ffmpeg infers the muxer from the extension.
#[derive(Debug, Clone, Copy, PartialEq, Eq, Structural)]
pub enum Container {
    Mp4,
    Mkv,
    Webm,
    Mov,
    Avi,
    Gif,
    Mp3,
}

impl Container {
    /// The name ffmpeg knows each variant by.
    pub open spec fn extension_of(self) -> Seq<char> {
        match self {
            Container::Mp4 => "mp4"@,
            Container::Mkv => "mkv"@,
            Container::Webm => "webm"@,
            Container::Mov => "mov"@,
            Container::Avi => "avi"@,
            Container::Gif => "gif"@,
            Container::Mp3 => "mp3"@,
        }
    }

    /// The file extension of the container, without the dot.
    pub fn extension(&self) -> (r: &'static str)
        ensures
            r@ == self.extension_of(),
    {
        match self {
            Container::Mp4 => "mp4",
            Container::Mkv => "mkv",
            Container::Webm => "webm",
            Container::Mov => "mov",
            Container::Avi => "avi",
            Container::Gif => "gif",
            Container::Mp3 => "mp3",
        }
    }

    /// The label each variant is shown with.
    pub open spec fn label_of(self) -> Seq<char> {
        match self {
            Container::Mp4 => "MP4"@,
            Container::Mkv => "MKV"@,
            Container::Webm => "WebM"@,
            Container::Mov => "MOV"@,
            Container::Avi => "AVI"@,
            Container::Gif => "GIF"@,
            Container::Mp3 => "MP3 (audio only)"@,
        }
    }

    /// The label it is shown with.
    pub fn label(&self) -> (r: &'static str)
        ensures
            r@ == self.label_of(),
    {
        match self {
            Container::Mp4 => "MP4",
            Container::Mkv => "MKV",
            Container::Webm => "WebM",
            Container::Mov => "MOV",
            Container::Avi => "AVI",
            Container::Gif => "GIF",
            Container::Mp3 => "MP3 (audio only)",
        }
    }

    /// Every variant, in declaration order.
    pub const ALL: [Container; 7] = [Container::Mp4, Container::Mkv, Container::Webm, Container::Mov, Container::Avi, Container::Gif, Container::Mp3];

}

/// Encoder speed/quality trade-off, in x264 naming, fastest first.
#[derive(Debug, Clone, Copy, PartialEq, Eq, Structural)]
pub enum PresetSpeed {
    Ultrafast,
    Superfast,
    Veryfast,
    Faster,
    Fast,
    Medium,
    Slow,
    Slower,
    Veryslow,
}

impl PresetSpeed {
    /// The name ffmpeg knows each variant by.
    pub open spec fn ffmpeg_name_of(self) -> Seq<char> {
        match self {
            PresetSpeed::Ultrafast => "ultrafast"@,
            PresetSpeed::Superfast => "superfast"@,
            PresetSpeed::Veryfast => "veryfast"@,
            PresetSpeed::Faster => "faster"@,
            PresetSpeed::Fast => "fast"@,
            PresetSpeed::Medium => "medium"@,
            PresetSpeed::Slow => "slow"@,
            PresetSpeed::Slower => "slower"@,
            PresetSpeed::Veryslow => "veryslow"@,
        }
    }

    /// The name ffmpeg knows it by.
    pub fn ffmpeg_name(&self) -> (r: &'static str)
        ensures
            r@ == self.ffmpeg_name_of(),
    {
        match self {
            PresetSpeed::Ultrafast => "ultrafast",
            PresetSpeed::Superfast => "superfast",
            PresetSpeed::Veryfast => "veryfast",
            PresetSpeed::Faster => "faster",
            PresetSpeed::Fast => "fast",
            PresetSpeed::Medium => "medium",
            PresetSpeed::Slow => "slow",
            PresetSpeed::Slower => "slower",
            PresetSpeed::Veryslow => "veryslow",
        }
    }

    /// Every variant, in declaration order.
    pub const ALL: [PresetSpeed; 9] = [PresetSpeed::Ultrafast, PresetSpeed::Superfast, PresetSpeed::Veryfast, PresetSpeed::Faster, PresetSpeed::Fast, PresetSpeed::Medium, PresetSpeed::Slow, PresetSpeed::Slower, PresetSpeed::Veryslow];

}

/// H.264 profiles.
#[derive(Debug, Clone, Copy, PartialEq, Eq, Structural)]
pub enum Profile {
    Baseline,
    Main,
    High,
}

impl Profile {
    /// The name ffmpeg knows each variant by.
    pub open spec fn ffmpeg_name_of(self) -> Seq<char> {
        match self {
            Profile::Baseline => "baseline"@,
            Profile::Main => "main"@,
            Profile::High => "high"@,
        }
    }

    /// The name ffmpeg knows it by.
    pub fn ffmpeg_name(&self) -> (r: &'static str)
        ensures
            r@ == self.ffmpeg_name_of(),
    {
        match self {
            Profile::Baseline => "baseline",
            Profile::Main => "main",
            Profile::High => "high",
        }
    }

    /// Every variant, in declaration order.
    pub const ALL: [Profile; 3] = [Profile::Baseline, Profile::Main, Profile::High];

}

/// Output pixel formats.
#[derive(Debug, Clone, Copy, PartialEq, Eq, Structural)]
pub enum PixelFormat {
    Yuv420p,
    Yuv422p,
    Yuv444p,
    Nv12,
    Rgb24,
}

impl PixelFormat {
    /// The name ffmpeg knows each variant by.
    pub open spec fn ffmpeg_name_of(self) -> Seq<char> {
        match self {
            PixelFormat::Yuv420p => "yuv420p"@,
            PixelFormat::Yuv422p => "yuv422p"@,
            PixelFormat::Yuv444p => "yuv444p"@,
            PixelFormat::Nv12 => "nv12"@,
            PixelFormat::Rgb24 => "rgb24"@,
        }
    }

    /// The name ffmpeg knows it by.
    pub fn ffmpeg_name(&self) -> (r: &'static str)
        ensures
            r@ == self.ffmpeg_name_of(),
    {
        match self {
            PixelFormat::Yuv420p => "yuv420p",
            PixelFormat::Yuv422p => "yuv422p",
            PixelFormat::Yuv444p => "yuv444p",
            PixelFormat::Nv12 => "nv12",
            PixelFormat::Rgb24 => "rgb24",
        }
    }

    /// Every variant, in declaration order.
    pub const ALL: [PixelFormat; 5] = [PixelFormat::Yuv420p, PixelFormat::Yuv422p, PixelFormat::Yuv444p, PixelFormat::Nv12, PixelFormat::Rgb24];

}

/// Deinterlacing filters.
#[derive(Debug, Clone, Copy, PartialEq, Eq, Structural)]
pub enum DeinterlaceMethod {
    Yadif,
    Bwdif,
}

impl DeinterlaceMethod {
    /// The name ffmpeg knows each variant by.
    pub open spec fn ffmpeg_name_of(self) -> Seq<char> {
        match self {
            DeinterlaceMethod::Yadif => "yadif"@,
            DeinterlaceMethod::Bwdif => "bwdif"@,
        }
    }

    /// The name ffmpeg knows it by.
    pub fn ffmpeg_name(&self) -> (r: &'static str)
        ensures
            r@ == self.ffmpeg_name_of(),
    {
        match self {
            DeinterlaceMethod::Yadif => "yadif",
            DeinterlaceMethod::Bwdif => "bwdif",
        }
    }

}

/// Scaler algorithms, passed as `flags=` of the scale filter.
#[derive(Debug, Clone, Copy, PartialEq, Eq, Structural)]
pub enum ScaleAlgorithm {
    Bilinear,
    Bicubic,
    Lanczos,
}

impl ScaleAlgorithm {
    /// The name ffmpeg knows each variant by.
    pub open spec fn ffmpeg_flag_of(self) -> Seq<char> {
        match self {
            ScaleAlgorithm::Bilinear => "bilinear"@,
            ScaleAlgorithm::Bicubic => "bicubic"@,
            ScaleAlgorithm::Lanczos => "lanczos"@,
        }
    }

    /// The `flags=` value of ffmpeg's scale filter.
    pub fn ffmpeg_flag(&self) -> (r: &'static str)
        ensures
            r@ == self.ffmpeg_flag_of(),
    {
        match self {
            ScaleAlgorithm::Bilinear => "bilinear",
            ScaleAlgorithm::Bicubic => "bicubic",
            ScaleAlgorithm::Lanczos => "lanczos",
        }
    }

}

/// MP4/MOV muxer flags.
#[derive(Debug, Clone, Copy, PartialEq, Eq, Structural)]
pub enum MovFlag {
    FastStart,
    FragKeyframe,
}

impl MovFlag {
    /// The name ffmpeg knows each variant by.
    pub open spec fn ffmpeg_name_of(self) -> Seq<char> {
        match self {
            MovFlag::FastStart => "faststart"@,
            MovFlag::FragKeyframe => "frag_keyframe"@,
        }
    }

    /// The name ffmpeg knows it by.
    pub fn ffmpeg_name(&self) -> (r: &'static str)
        ensures
            r@ == self.ffmpeg_name_of(),
    {
        match self {
            MovFlag::FastStart => "faststart",
            MovFlag::FragKeyframe => "frag_keyframe",
        }
    }

}

impl PresetSpeed {
    /// Position in the speed order, `0` for the fastest preset.
    pub open spec fn rank(self) -> nat {
        match self {
            PresetSpeed::Ultrafast => 0,
            PresetSpeed::Superfast => 1,
            PresetSpeed::Veryfast => 2,
            PresetSpeed::Faster => 3,
            PresetSpeed::Fast => 4,
            PresetSpeed::Medium => 5,
            PresetSpeed::Slow => 6,
            PresetSpeed::Slower => 7,
            PresetSpeed::Veryslow => 8,
        }
    }

    /// libvpx-vp9 `-cpu-used` for each preset: 0 (best) to 5 (fastest).
    pub open spec fn vp9_cpu_used_of(self) -> u8 {
        match self {
            PresetSpeed::Ultrafast => 5,
            PresetSpeed::Superfast => 5,
            PresetSpeed::Veryfast => 4,
            PresetSpeed::Faster => 4,
            PresetSpeed::Fast => 3,
            PresetSpeed::Medium => 2,
            PresetSpeed::Slow => 1,
            PresetSpeed::Slower => 0,
            PresetSpeed::Veryslow => 0,
        }
    }

    /// libaom-av1 `-cpu-used` for each preset: 0 (best) to 8 (fastest).
    pub open spec fn av1_cpu_used_of(self) -> u8 {
        match self {
            PresetSpeed::Ultrafast => 8,
            PresetSpeed::Superfast => 7,
            PresetSpeed::Veryfast => 6,
            PresetSpeed::Faster => 5,
            PresetSpeed::Fast => 4,
            PresetSpeed::Medium => 3,
            PresetSpeed::Slow => 2,
            PresetSpeed::Slower => 1,
            PresetSpeed::Veryslow => 0,
        }
    }

    /// libsvtav1 numeric `-preset` for each preset: 0 (best) to 13 (fastest).
    pub open spec fn svtav1_preset_of(self) -> u8 {
        match self {
            PresetSpeed::Ultrafast => 13,
            PresetSpeed::Superfast => 12,
            PresetSpeed::Veryfast => 10,
            PresetSpeed::Faster => 8,
            PresetSpeed::Fast => 7,
            PresetSpeed::Medium => 5,
            PresetSpeed::Slow => 4,
            PresetSpeed::Slower => 2,
            PresetSpeed::Veryslow => 0,
        }
    }

    /// libvpx-vp9 `-cpu-used` for this preset.
    pub fn vp9_cpu_used(&self) -> (r: u8)
        ensures
            r == self.vp9_cpu_used_of(),
    {
        match self {
            PresetSpeed::Ultrafast => 5,
            PresetSpeed::Superfast => 5,
            PresetSpeed::Veryfast => 4,
            PresetSpeed::Faster => 4,
            PresetSpeed::Fast => 3,
            PresetSpeed::Medium => 2,
            PresetSpeed::Slow => 1,
            PresetSpeed::Slower => 0,
            PresetSpeed::Veryslow => 0,
        }
    }

    /// libaom-av1 `-cpu-used` for this preset.
    pub fn av1_cpu_used(&self) -> (r: u8)
        ensures
            r == self.av1_cpu_used_of(),
    {
        match self {
            PresetSpeed::Ultrafast => 8,
            PresetSpeed::Superfast => 7,
            PresetSpeed::Veryfast => 6,
            PresetSpeed::Faster => 5,
            PresetSpeed::Fast => 4,
            PresetSpeed::Medium => 3,
            PresetSpeed::Slow => 2,
            PresetSpeed::Slower => 1,
            PresetSpeed::Veryslow => 0,
        }
    }

    /// libsvtav1 numeric `-preset` for this preset.
    pub fn svtav1_preset(&self) -> (r: u8)
        ensures
            r == self.svtav1_preset_of(),
    {
        match self {
            PresetSpeed::Ultrafast => 13,
            PresetSpeed::Superfast => 12,
            PresetSpeed::Veryfast => 10,
            PresetSpeed::Faster => 8,
            PresetSpeed::Fast => 7,
            PresetSpeed::Medium => 5,
            PresetSpeed::Slow => 4,
            PresetSpeed::Slower => 2,
            PresetSpeed::Veryslow => 0,
        }
    }
}

/// A slower preset never asks an encoder for less effort: each numeric
/// mapping falls (or stays) as the preset gets slower, and stays in the
/// encoder's range (VP9 0..=5, libaom 0..=8, SVT-AV1 0..=13).
pub proof fn lemma_speed_mappings_monotone(a: PresetSpeed, b: PresetSpeed)
    requires
        a.rank() <= b.rank(),
    ensures
        a.vp9_cpu_used_of() >= b.vp9_cpu_used_of(),
        a.av1_cpu_used_of() >= b.av1_cpu_used_of(),
        a.svtav1_preset_of() >= b.svtav1_preset_of(),
        a.vp9_cpu_used_of() <= 5,
        a.av1_cpu_used_of() <= 8,
        a.svtav1_preset_of() <= 13,
{
}

/// Output frame rate.
#[derive(Debug, Clone, Copy, PartialEq, Eq, Structural)]
pub enum FpsMode {
    SameAsSource,
    Fixed(u32),
}

impl FpsMode {
    /// The text shown for a frame-rate choice.
    pub open spec fn text_of(self) -> Seq<char> {
        match self {
            FpsMode::SameAsSource => "Same as source"@,
            FpsMode::Fixed(f) => dec(f as nat) + " fps"@,
        }
    }

    /// The text shown for a frame-rate choice (`Same as source`, `30 fps`).
    pub fn to_string(&self) -> (r: String)
        ensures
            r@ == self.text_of(),
    {
        match self {
            FpsMode::SameAsSource => owned("Same as source"),
            FpsMode::Fixed(f) => {
                let mut r = nat_to_string(*f as u64);
                r.append(" fps");
                r
            },
        }
    }
}

/// π × 10^18, rounded down.
pub const PI_E18: u128 = 3141592653589793238u128;

/// A rotation of `deg` degrees in millionths of a radian, rounded to the
/// nearest, with the sign of `deg`.
pub open spec fn micro_radians(deg: int) -> int {
    let m = (abs(deg) * PI_E18 + 90_000_000_000_000) / 180_000_000_000_000;
    if deg < 0 {
        -m
    } else {
        m
    }
}

/// A video filter. Brightness, contrast and saturation are given in
/// hundredths (`150` stands for `1.50`).
#[derive(Debug, Clone, Copy, PartialEq, Eq, Structural)]
pub enum VideoFilter {
    HFlip,
    VFlip,
    /// Degrees: 90, 180, 270.
    Rotate(i32),
    Crop { w: u32, h: u32, x: u32, y: u32 },
    Denoise,
    Grayscale,
    /// Hundredths, -100 to 100.
    Brightness(i32),
    /// Hundredths, -200 to 200.
    Contrast(i32),
    /// Hundredths, 0 to 300.
    Saturation(i32),
}

impl VideoFilter {
    /// The ffmpeg filter expression of each filter.
    pub open spec fn ffmpeg_string_of(self) -> Seq<char> {
        match self {
            VideoFilter::HFlip => "hflip"@,
            VideoFilter::VFlip => "vflip"@,
            VideoFilter::Rotate(deg) => "rotate="@ + fixed6(micro_radians(deg as int)),
            VideoFilter::Crop { w, h, x, y } => "crop="@ + dec(w as nat) + ":"@ + dec(h as nat)
                + ":"@ + dec(x as nat) + ":"@ + dec(y as nat),
            VideoFilter::Denoise => "hqdn3d"@,
            VideoFilter::Grayscale => "format=gray"@,
            VideoFilter::Brightness(v) => "eq=brightness="@ + fixed2(v as int),
            VideoFilter::Contrast(v) => "eq=contrast="@ + fixed2(v as int),
            VideoFilter::Saturation(v) => "eq=saturation="@ + fixed2(v as int),
        }
    }

    /// The label shown for each filter.
    pub open spec fn label_of(self) -> Seq<char> {
        match self {
            VideoFilter::HFlip => "Flip Horizontal"@,
            VideoFilter::VFlip => "Flip Vertical"@,
            VideoFilter::Rotate(d) => "Rotate "@ + signed_dec(d as int) + "°"@,
            VideoFilter::Crop { w, h, x, y } => "Crop "@ + dec(w as nat) + "x"@ + dec(h as nat)
                + " @ ("@ + dec(x as nat) + ","@ + dec(y as nat) + ")"@,
            VideoFilter::Denoise => "Denoise (hqdn3d)"@,
            VideoFilter::Grayscale => "Grayscale"@,
            VideoFilter::Brightness(v) => "Brightness "@ + fixed2_signed(v as int),
            VideoFilter::Contrast(v) => "Contrast "@ + fixed2_signed(v as int),
            VideoFilter::Saturation(v) => "Saturation "@ + fixed2(v as int),
        }
    }

    /// The ffmpeg filter expression.
    pub fn to_ffmpeg_string(&self) -> (r: String)
        ensures
            r@ == self.ffmpeg_string_of(),
    {
        match self {
            VideoFilter::HFlip => owned("hflip"),
            VideoFilter::VFlip => owned("vflip"),
            VideoFilter::Rotate(deg) => {
                let d: i128 = *deg as i128;
                let a: u128 = if d < 0 {
                    (-d) as u128
                } else {
                    d as u128
                };
                assert(a == abs(d as int));
                assert(a * PI_E18 <= 0x8000_0000u128 * PI_E18) by (nonlinear_arith)
                    requires
                        a <= 0x8000_0000u128,
                ;
                let m: u128 = (a * PI_E18 + 90_000_000_000_000u128) / 180_000_000_000_000u128;
                let sm: i128 = if d < 0 {
                    -(m as i128)
                } else {
                    m as i128
                };
                let mut r = owned("rotate=");
                let t = fixed6_to_string(sm);
                r.append(t.as_str());
                r
            },
            VideoFilter::Crop { w, h, x, y } => {
                let mut r = owned("crop=");
                r.append(nat_to_string(*w as u64).as_str());
                r.append(":");
                r.append(nat_to_string(*h as u64).as_str());
                r.append(":");
                r.append(nat_to_string(*x as u64).as_str());
                r.append(":");
                r.append(nat_to_string(*y as u64).as_str());
                r
            },
            VideoFilter::Denoise => owned("hqdn3d"),
            VideoFilter::Grayscale => owned("format=gray"),
            VideoFilter::Brightness(v) => {
                let mut r = owned("eq=brightness=");
                r.append(fixed2_to_string(*v as i64, false).as_str());
                r
            },
            VideoFilter::Contrast(v) => {
                let mut r = owned("eq=contrast=");
                r.append(fixed2_to_string(*v as i64, false).as_str());
                r
            },
            VideoFilter::Saturation(v) => {
                let mut r = owned("eq=saturation=");
                r.append(fixed2_to_string(*v as i64, false).as_str());
                r
            },
        }
    }

    /// The label it is shown with.
    pub fn label(&self) -> (r: String)
        ensures
            r@ == self.label_of(),
    {
        match self {
            VideoFilter::HFlip => owned("Flip Horizontal"),
            VideoFilter::VFlip => owned("Flip Vertical"),
            VideoFilter::Rotate(d) => {
                let mut r = owned("Rotate ");
                r.append(int_to_string(*d as i64).as_str());
                r.append("°");
                r
            },
            VideoFilter::Crop { w, h, x, y } => {
                let mut r = owned("Crop ");
                r.append(nat_to_string(*w as u64).as_str());
                r.append("x");
                r.append(nat_to_string(*h as u64).as_str());
                r.append(" @ (");
                r.append(nat_to_string(*x as u64).as_str());
                r.append(",");
                r.append(nat_to_string(*y as u64).as_str());
                r.append(")");
                r
            },
            VideoFilter::Denoise => owned("Denoise (hqdn3d)"),
            VideoFilter::Grayscale => owned("Grayscale"),
            VideoFilter::Brightness(v) => {
                let mut r = owned("Brightness ");
                r.append(fixed2_to_string(*v as i64, true).as_str());
                r
            },
            VideoFilter::Contrast(v) => {
                let mut r = owned("Contrast ");
                r.append(fixed2_to_string(*v as i64, true).as_str());
                r
            },
            VideoFilter::Saturation(v) => {
                let mut r = owned("Saturation ");
                r.append(fixed2_to_string(*v as i64, false).as_str());
                r
            },
        }
    }
}

/// An audio filter. The volume multiplier is given in hundredths (`200`
/// stands for `2.00`).
#[derive(Debug, Clone, Copy, PartialEq, Eq, Structural)]
pub enum AudioFilter {
    /// Multiplier in hundredths, 0 to 300.
    Volume(i32),
    /// EBU R128 loudness normalisation.
    Loudnorm,
    /// Cut-off in Hz.
    Highpass(u32),
    /// Cut-off in Hz.
    Lowpass(u32),
}

impl AudioFilter {
    /// The ffmpeg filter expression of each filter.
    pub open spec fn ffmpeg_string_of(self) -> Seq<char> {
        match self {
            AudioFilter::Volume(v) => "volume="@ + fixed2(v as int),
            AudioFilter::Loudnorm => "loudnorm=I=-16:LRA=11:TP=-1.5"@,
            AudioFilter::Highpass(f) => "highpass=f="@ + dec(f as nat),
            AudioFilter::Lowpass(f) => "lowpass=f="@ + dec(f as nat),
        }
    }

    /// The label shown for each filter.
    pub open spec fn label_of(self) -> Seq<char> {
        match self {
            AudioFilter::Volume(v) => "Volume "@ + fixed2(v as int) + "x"@,
            AudioFilter::Loudnorm => "Loudness Norm (EBU R128)"@,
            AudioFilter::Highpass(f) => "Highpass "@ + dec(f as nat) + "Hz"@,
            AudioFilter::Lowpass(f) => "Lowpass "@ + dec(f as nat) + "Hz"@,
        }
    }

    /// The ffmpeg filter expression.
    pub fn to_ffmpeg_string(&self) -> (r: String)
        ensures
            r@ == self.ffmpeg_string_of(),
    {
        match self {
            AudioFilter::Volume(v) => {
                let mut r = owned("volume=");
                r.append(fixed2_to_string(*v as i64, false).as_str());
                r
            },
            AudioFilter::Loudnorm => owned("loudnorm=I=-16:LRA=11:TP=-1.5"),
            AudioFilter::Highpass(f) => {
                let mut r = owned("highpass=f=");
                r.append(nat_to_string(*f as u64).as_str());
                r
            },
            AudioFilter::Lowpass(f) => {
                let mut r = owned("lowpass=f=");
                r.append(nat_to_string(*f as u64).as_str());
                r
            },
        }
    }

    /// The label it is shown with.
    pub fn label(&self) -> (r: String)
        ensures
            r@ == self.label_of(),
    {
        match self {
            AudioFilter::Volume(v) => {
                let mut r = owned("Volume ");
                r.append(fixed2_to_string(*v as i64, false).as_str());
                r.append("x");
                r
            },
            AudioFilter::Loudnorm => owned("Loudness Norm (EBU R128)"),
            AudioFilter::Highpass(f) => {
                let mut r = owned("Highpass ");
                r.append(nat_to_string(*f as u64).as_str());
                r.append("Hz");
                r
            },
            AudioFilter::Lowpass(f) => {
                let mut r = owned("Lowpass ");
                r.append(nat_to_string(*f as u64).as_str());
                r.append("Hz");
                r
            },
        }
    }
}

/// The interface mode a window opens in.
#[derive(Debug, Clone, Copy, PartialEq, Eq, Structural)]
pub enum UiMode {
    Simple,
    Advanced,
}

/// Colour theme.
#[derive(Debug, Clone, Copy, PartialEq, Eq, Structural)]
pub enum Theme {
    Light,
    Dark,
    System,
}

/// What a preset produces.
#[derive(Debug, Clone, Copy, PartialEq, Eq, Structural)]
pub enum PresetCategory {
    Video,
    Audio,
    Image,
}
} // verus!
