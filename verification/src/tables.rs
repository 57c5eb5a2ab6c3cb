//! What each name, label and extension in the enums stands for (the text
//! ffmpeg and the window use for every variant, no two variants of one
//! enum sharing a text), the default parameters, and what each built-in
//! preset encodes.
use vstd::prelude::*;

use crate::enums::{
    AudioCodec, Container, DeinterlaceMethod, FpsMode, MovFlag, PixelFormat, PresetSpeed, Profile,
    ScaleAlgorithm, VideoCodec,
};
use crate::job::default_params;
use crate::preset::builtin_preset;
use crate::error::MediaForgeError;
use crate::i18n::Language;

verus! {

/// Each video codec is run by its own ffmpeg encoder, and no two codecs share one.
pub proof fn lemma_video_codec_names(a: VideoCodec, b: VideoCodec)
    ensures
        VideoCodec::H264.ffmpeg_name_of() == "libx264"@,
        VideoCodec::H265.ffmpeg_name_of() == "libx265"@,
        VideoCodec::VP9.ffmpeg_name_of() == "libvpx-vp9"@,
        VideoCodec::AV1.ffmpeg_name_of() == "libaom-av1"@,
        VideoCodec::SVTAV1.ffmpeg_name_of() == "libsvtav1"@,
        VideoCodec::Copy.ffmpeg_name_of() == "copy"@,
        a.ffmpeg_name_of() == b.ffmpeg_name_of() ==> a == b,
{
    reveal_strlit("libx264");
    assert("libx264"@.len() == 7);
    assert("libx264"@[0] == 'l');
    assert("libx264"@[1] == 'i');
    assert("libx264"@[2] == 'b');
    assert("libx264"@[3] == 'x');
    assert("libx264"@[4] == '2');
    assert("libx264"@[5] == '6');
    assert("libx264"@[6] == '4');
    reveal_strlit("libx265");
    assert("libx265"@.len() == 7);
    assert("libx265"@[0] == 'l');
    assert("libx265"@[1] == 'i');
    assert("libx265"@[2] == 'b');
    assert("libx265"@[3] == 'x');
    assert("libx265"@[4] == '2');
    assert("libx265"@[5] == '6');
    assert("libx265"@[6] == '5');
    reveal_strlit("libvpx-vp9");
    assert("libvpx-vp9"@.len() == 10);
    assert("libvpx-vp9"@[0] == 'l');
    assert("libvpx-vp9"@[1] == 'i');
    assert("libvpx-vp9"@[2] == 'b');
    assert("libvpx-vp9"@[3] == 'v');
    assert("libvpx-vp9"@[4] == 'p');
    assert("libvpx-vp9"@[5] == 'x');
    assert("libvpx-vp9"@[6] == '-');
    assert("libvpx-vp9"@[7] == 'v');
    assert("libvpx-vp9"@[8] == 'p');
    assert("libvpx-vp9"@[9] == '9');
    reveal_strlit("libaom-av1");
    assert("libaom-av1"@.len() == 10);
    assert("libaom-av1"@[0] == 'l');
    assert("libaom-av1"@[1] == 'i');
    assert("libaom-av1"@[2] == 'b');
    assert("libaom-av1"@[3] == 'a');
    assert("libaom-av1"@[4] == 'o');
    assert("libaom-av1"@[5] == 'm');
    assert("libaom-av1"@[6] == '-');
    assert("libaom-av1"@[7] == 'a');
    assert("libaom-av1"@[8] == 'v');
    assert("libaom-av1"@[9] == '1');
    reveal_strlit("libsvtav1");
    assert("libsvtav1"@.len() == 9);
    assert("libsvtav1"@[0] == 'l');
    assert("libsvtav1"@[1] == 'i');
    assert("libsvtav1"@[2] == 'b');
    assert("libsvtav1"@[3] == 's');
    assert("libsvtav1"@[4] == 'v');
    assert("libsvtav1"@[5] == 't');
    assert("libsvtav1"@[6] == 'a');
    assert("libsvtav1"@[7] == 'v');
    assert("libsvtav1"@[8] == '1');
    reveal_strlit("copy");
    assert("copy"@.len() == 4);
    assert("copy"@[0] == 'c');
    assert("copy"@[1] == 'o');
    assert("copy"@[2] == 'p');
    assert("copy"@[3] == 'y');
}

/// Each video codec is shown under its own label.
pub proof fn lemma_video_codec_labels(a: VideoCodec, b: VideoCodec)
    ensures
        VideoCodec::H264.label_of() == "H.264 (libx264)"@,
        VideoCodec::H265.label_of() == "H.265 / HEVC (libx265)"@,
        VideoCodec::VP9.label_of() == "VP9 (libvpx-vp9)"@,
        VideoCodec::AV1.label_of() == "AV1 (libaom-av1)"@,
        VideoCodec::SVTAV1.label_of() == "AV1 (libsvtav1)"@,
        VideoCodec::Copy.label_of() == "Copy (no re-encode)"@,
        a.label_of() == b.label_of() ==> a == b,
{
    reveal_strlit("H.264 (libx264)");
    assert("H.264 (libx264)"@.len() == 15);
    assert("H.264 (libx264)"@[0] == 'H');
    assert("H.264 (libx264)"@[1] == '.');
    assert("H.264 (libx264)"@[2] == '2');
    assert("H.264 (libx264)"@[3] == '6');
    assert("H.264 (libx264)"@[4] == '4');
    assert("H.264 (libx264)"@[5] == ' ');
    assert("H.264 (libx264)"@[6] == '(');
    assert("H.264 (libx264)"@[7] == 'l');
    assert("H.264 (libx264)"@[8] == 'i');
    assert("H.264 (libx264)"@[9] == 'b');
    assert("H.264 (libx264)"@[10] == 'x');
    assert("H.264 (libx264)"@[11] == '2');
    assert("H.264 (libx264)"@[12] == '6');
    assert("H.264 (libx264)"@[13] == '4');
    assert("H.264 (libx264)"@[14] == ')');
    reveal_strlit("H.265 / HEVC (libx265)");
    assert("H.265 / HEVC (libx265)"@.len() == 22);
    assert("H.265 / HEVC (libx265)"@[0] == 'H');
    assert("H.265 / HEVC (libx265)"@[1] == '.');
    assert("H.265 / HEVC (libx265)"@[2] == '2');
    assert("H.265 / HEVC (libx265)"@[3] == '6');
    assert("H.265 / HEVC (libx265)"@[4] == '5');
    assert("H.265 / HEVC (libx265)"@[5] == ' ');
    assert("H.265 / HEVC (libx265)"@[6] == '/');
    assert("H.265 / HEVC (libx265)"@[7] == ' ');
    assert("H.265 / HEVC (libx265)"@[8] == 'H');
    assert("H.265 / HEVC (libx265)"@[9] == 'E');
    assert("H.265 / HEVC (libx265)"@[10] == 'V');
    assert("H.265 / HEVC (libx265)"@[11] == 'C');
    assert("H.265 / HEVC (libx265)"@[12] == ' ');
    assert("H.265 / HEVC (libx265)"@[13] == '(');
    assert("H.265 / HEVC (libx265)"@[14] == 'l');
    assert("H.265 / HEVC (libx265)"@[15] == 'i');
    assert("H.265 / HEVC (libx265)"@[16] == 'b');
    assert("H.265 / HEVC (libx265)"@[17] == 'x');
    assert("H.265 / HEVC (libx265)"@[18] == '2');
    assert("H.265 / HEVC (libx265)"@[19] == '6');
    assert("H.265 / HEVC (libx265)"@[20] == '5');
    assert("H.265 / HEVC (libx265)"@[21] == ')');
    reveal_strlit("VP9 (libvpx-vp9)");
    assert("VP9 (libvpx-vp9)"@.len() == 16);
    assert("VP9 (libvpx-vp9)"@[0] == 'V');
    assert("VP9 (libvpx-vp9)"@[1] == 'P');
    assert("VP9 (libvpx-vp9)"@[2] == '9');
    assert("VP9 (libvpx-vp9)"@[3] == ' ');
    assert("VP9 (libvpx-vp9)"@[4] == '(');
    assert("VP9 (libvpx-vp9)"@[5] == 'l');
    assert("VP9 (libvpx-vp9)"@[6] == 'i');
    assert("VP9 (libvpx-vp9)"@[7] == 'b');
    assert("VP9 (libvpx-vp9)"@[8] == 'v');
    assert("VP9 (libvpx-vp9)"@[9] == 'p');
    assert("VP9 (libvpx-vp9)"@[10] == 'x');
    assert("VP9 (libvpx-vp9)"@[11] == '-');
    assert("VP9 (libvpx-vp9)"@[12] == 'v');
    assert("VP9 (libvpx-vp9)"@[13] == 'p');
    assert("VP9 (libvpx-vp9)"@[14] == '9');
    assert("VP9 (libvpx-vp9)"@[15] == ')');
    reveal_strlit("AV1 (libaom-av1)");
    assert("AV1 (libaom-av1)"@.len() == 16);
    assert("AV1 (libaom-av1)"@[0] == 'A');
    assert("AV1 (libaom-av1)"@[1] == 'V');
    assert("AV1 (libaom-av1)"@[2] == '1');
    assert("AV1 (libaom-av1)"@[3] == ' ');
    assert("AV1 (libaom-av1)"@[4] == '(');
    assert("AV1 (libaom-av1)"@[5] == 'l');
    assert("AV1 (libaom-av1)"@[6] == 'i');
    assert("AV1 (libaom-av1)"@[7] == 'b');
    assert("AV1 (libaom-av1)"@[8] == 'a');
    assert("AV1 (libaom-av1)"@[9] == 'o');
    assert("AV1 (libaom-av1)"@[10] == 'm');
    assert("AV1 (libaom-av1)"@[11] == '-');
    assert("AV1 (libaom-av1)"@[12] == 'a');
    assert("AV1 (libaom-av1)"@[13] == 'v');
    assert("AV1 (libaom-av1)"@[14] == '1');
    assert("AV1 (libaom-av1)"@[15] == ')');
    reveal_strlit("AV1 (libsvtav1)");
    assert("AV1 (libsvtav1)"@.len() == 15);
    assert("AV1 (libsvtav1)"@[0] == 'A');
    assert("AV1 (libsvtav1)"@[1] == 'V');
    assert("AV1 (libsvtav1)"@[2] == '1');
    assert("AV1 (libsvtav1)"@[3] == ' ');
    assert("AV1 (libsvtav1)"@[4] == '(');
    assert("AV1 (libsvtav1)"@[5] == 'l');
    assert("AV1 (libsvtav1)"@[6] == 'i');
    assert("AV1 (libsvtav1)"@[7] == 'b');
    assert("AV1 (libsvtav1)"@[8] == 's');
    assert("AV1 (libsvtav1)"@[9] == 'v');
    assert("AV1 (libsvtav1)"@[10] == 't');
    assert("AV1 (libsvtav1)"@[11] == 'a');
    assert("AV1 (libsvtav1)"@[12] == 'v');
    assert("AV1 (libsvtav1)"@[13] == '1');
    assert("AV1 (libsvtav1)"@[14] == ')');
    reveal_strlit("Copy (no re-encode)");
    assert("Copy (no re-encode)"@.len() == 19);
    assert("Copy (no re-encode)"@[0] == 'C');
    assert("Copy (no re-encode)"@[1] == 'o');
    assert("Copy (no re-encode)"@[2] == 'p');
    assert("Copy (no re-encode)"@[3] == 'y');
    assert("Copy (no re-encode)"@[4] == ' ');
    assert("Copy (no re-encode)"@[5] == '(');
    assert("Copy (no re-encode)"@[6] == 'n');
    assert("Copy (no re-encode)"@[7] == 'o');
    assert("Copy (no re-encode)"@[8] == ' ');
    assert("Copy (no re-encode)"@[9] == 'r');
    assert("Copy (no re-encode)"@[10] == 'e');
    assert("Copy (no re-encode)"@[11] == '-');
    assert("Copy (no re-encode)"@[12] == 'e');
    assert("Copy (no re-encode)"@[13] == 'n');
    assert("Copy (no re-encode)"@[14] == 'c');
    assert("Copy (no re-encode)"@[15] == 'o');
    assert("Copy (no re-encode)"@[16] == 'd');
    assert("Copy (no re-encode)"@[17] == 'e');
    assert("Copy (no re-encode)"@[18] == ')');
}

/// Each audio codec is run by its own ffmpeg encoder, and no two codecs share one.
pub proof fn lemma_audio_codec_names(a: AudioCodec, b: AudioCodec)
    ensures
        AudioCodec::Aac.ffmpeg_name_of() == "aac"@,
        AudioCodec::Mp3.ffmpeg_name_of() == "libmp3lame"@,
        AudioCodec::Opus.ffmpeg_name_of() == "libopus"@,
        AudioCodec::Vorbis.ffmpeg_name_of() == "libvorbis"@,
        AudioCodec::Flac.ffmpeg_name_of() == "flac"@,
        AudioCodec::Copy.ffmpeg_name_of() == "copy"@,
        a.ffmpeg_name_of() == b.ffmpeg_name_of() ==> a == b,
{
    reveal_strlit("aac");
    assert("aac"@.len() == 3);
    assert("aac"@[0] == 'a');
    assert("aac"@[1] == 'a');
    assert("aac"@[2] == 'c');
    reveal_strlit("libmp3lame");
    assert("libmp3lame"@.len() == 10);
    assert("libmp3lame"@[0] == 'l');
    assert("libmp3lame"@[1] == 'i');
    assert("libmp3lame"@[2] == 'b');
    assert("libmp3lame"@[3] == 'm');
    assert("libmp3lame"@[4] == 'p');
    assert("libmp3lame"@[5] == '3');
    assert("libmp3lame"@[6] == 'l');
    assert("libmp3lame"@[7] == 'a');
    assert("libmp3lame"@[8] == 'm');
    assert("libmp3lame"@[9] == 'e');
    reveal_strlit("libopus");
    assert("libopus"@.len() == 7);
    assert("libopus"@[0] == 'l');
    assert("libopus"@[1] == 'i');
    assert("libopus"@[2] == 'b');
    assert("libopus"@[3] == 'o');
    assert("libopus"@[4] == 'p');
    assert("libopus"@[5] == 'u');
    assert("libopus"@[6] == 's');
    reveal_strlit("libvorbis");
    assert("libvorbis"@.len() == 9);
    assert("libvorbis"@[0] == 'l');
    assert("libvorbis"@[1] == 'i');
    assert("libvorbis"@[2] == 'b');
    assert("libvorbis"@[3] == 'v');
    assert("libvorbis"@[4] == 'o');
    assert("libvorbis"@[5] == 'r');
    assert("libvorbis"@[6] == 'b');
    assert("libvorbis"@[7] == 'i');
    assert("libvorbis"@[8] == 's');
    reveal_strlit("flac");
    assert("flac"@.len() == 4);
    assert("flac"@[0] == 'f');
    assert("flac"@[1] == 'l');
    assert("flac"@[2] == 'a');
    assert("flac"@[3] == 'c');
    reveal_strlit("copy");
    assert("copy"@.len() == 4);
    assert("copy"@[0] == 'c');
    assert("copy"@[1] == 'o');
    assert("copy"@[2] == 'p');
    assert("copy"@[3] == 'y');
}

/// Each audio codec is shown under its own label.
pub proof fn lemma_audio_codec_labels(a: AudioCodec, b: AudioCodec)
    ensures
        AudioCodec::Aac.label_of() == "AAC"@,
        AudioCodec::Mp3.label_of() == "MP3 (libmp3lame)"@,
        AudioCodec::Opus.label_of() == "Opus (libopus)"@,
        AudioCodec::Vorbis.label_of() == "Vorbis (libvorbis)"@,
        AudioCodec::Flac.label_of() == "FLAC"@,
        AudioCodec::Copy.label_of() == "Copy (no re-encode)"@,
        a.label_of() == b.label_of() ==> a == b,
{
    reveal_strlit("AAC");
    assert("AAC"@.len() == 3);
    assert("AAC"@[0] == 'A');
    assert("AAC"@[1] == 'A');
    assert("AAC"@[2] == 'C');
    reveal_strlit("MP3 (libmp3lame)");
    assert("MP3 (libmp3lame)"@.len() == 16);
    assert("MP3 (libmp3lame)"@[0] == 'M');
    assert("MP3 (libmp3lame)"@[1] == 'P');
    assert("MP3 (libmp3lame)"@[2] == '3');
    assert("MP3 (libmp3lame)"@[3] == ' ');
    assert("MP3 (libmp3lame)"@[4] == '(');
    assert("MP3 (libmp3lame)"@[5] == 'l');
    assert("MP3 (libmp3lame)"@[6] == 'i');
    assert("MP3 (libmp3lame)"@[7] == 'b');
    assert("MP3 (libmp3lame)"@[8] == 'm');
    assert("MP3 (libmp3lame)"@[9] == 'p');
    assert("MP3 (libmp3lame)"@[10] == '3');
    assert("MP3 (libmp3lame)"@[11] == 'l');
    assert("MP3 (libmp3lame)"@[12] == 'a');
    assert("MP3 (libmp3lame)"@[13] == 'm');
    assert("MP3 (libmp3lame)"@[14] == 'e');
    assert("MP3 (libmp3lame)"@[15] == ')');
    reveal_strlit("Opus (libopus)");
    assert("Opus (libopus)"@.len() == 14);
    assert("Opus (libopus)"@[0] == 'O');
    assert("Opus (libopus)"@[1] == 'p');
    assert("Opus (libopus)"@[2] == 'u');
    assert("Opus (libopus)"@[3] == 's');
    assert("Opus (libopus)"@[4] == ' ');
    assert("Opus (libopus)"@[5] == '(');
    assert("Opus (libopus)"@[6] == 'l');
    assert("Opus (libopus)"@[7] == 'i');
    assert("Opus (libopus)"@[8] == 'b');
    assert("Opus (libopus)"@[9] == 'o');
    assert("Opus (libopus)"@[10] == 'p');
    assert("Opus (libopus)"@[11] == 'u');
    assert("Opus (libopus)"@[12] == 's');
    assert("Opus (libopus)"@[13] == ')');
    reveal_strlit("Vorbis (libvorbis)");
    assert("Vorbis (libvorbis)"@.len() == 18);
    assert("Vorbis (libvorbis)"@[0] == 'V');
    assert("Vorbis (libvorbis)"@[1] == 'o');
    assert("Vorbis (libvorbis)"@[2] == 'r');
    assert("Vorbis (libvorbis)"@[3] == 'b');
    assert("Vorbis (libvorbis)"@[4] == 'i');
    assert("Vorbis (libvorbis)"@[5] == 's');
    assert("Vorbis (libvorbis)"@[6] == ' ');
    assert("Vorbis (libvorbis)"@[7] == '(');
    assert("Vorbis (libvorbis)"@[8] == 'l');
    assert("Vorbis (libvorbis)"@[9] == 'i');
    assert("Vorbis (libvorbis)"@[10] == 'b');
    assert("Vorbis (libvorbis)"@[11] == 'v');
    assert("Vorbis (libvorbis)"@[12] == 'o');
    assert("Vorbis (libvorbis)"@[13] == 'r');
    assert("Vorbis (libvorbis)"@[14] == 'b');
    assert("Vorbis (libvorbis)"@[15] == 'i');
    assert("Vorbis (libvorbis)"@[16] == 's');
    assert("Vorbis (libvorbis)"@[17] == ')');
    reveal_strlit("FLAC");
    assert("FLAC"@.len() == 4);
    assert("FLAC"@[0] == 'F');
    assert("FLAC"@[1] == 'L');
    assert("FLAC"@[2] == 'A');
    assert("FLAC"@[3] == 'C');
    reveal_strlit("Copy (no re-encode)");
    assert("Copy (no re-encode)"@.len() == 19);
    assert("Copy (no re-encode)"@[0] == 'C');
    assert("Copy (no re-encode)"@[1] == 'o');
    assert("Copy (no re-encode)"@[2] == 'p');
    assert("Copy (no re-encode)"@[3] == 'y');
    assert("Copy (no re-encode)"@[4] == ' ');
    assert("Copy (no re-encode)"@[5] == '(');
    assert("Copy (no re-encode)"@[6] == 'n');
    assert("Copy (no re-encode)"@[7] == 'o');
    assert("Copy (no re-encode)"@[8] == ' ');
    assert("Copy (no re-encode)"@[9] == 'r');
    assert("Copy (no re-encode)"@[10] == 'e');
    assert("Copy (no re-encode)"@[11] == '-');
    assert("Copy (no re-encode)"@[12] == 'e');
    assert("Copy (no re-encode)"@[13] == 'n');
    assert("Copy (no re-encode)"@[14] == 'c');
    assert("Copy (no re-encode)"@[15] == 'o');
    assert("Copy (no re-encode)"@[16] == 'd');
    assert("Copy (no re-encode)"@[17] == 'e');
    assert("Copy (no re-encode)"@[18] == ')');
}

/// Each container writes files with its own extension, and no two containers share one.
pub proof fn lemma_container_extensions(a: Container, b: Container)
    ensures
        Container::Mp4.extension_of() == "mp4"@,
        Container::Mkv.extension_of() == "mkv"@,
        Container::Webm.extension_of() == "webm"@,
        Container::Mov.extension_of() == "mov"@,
        Container::Avi.extension_of() == "avi"@,
        Container::Gif.extension_of() == "gif"@,
        Container::Mp3.extension_of() == "mp3"@,
        a.extension_of() == b.extension_of() ==> a == b,
{
    reveal_strlit("mp4");
    assert("mp4"@.len() == 3);
    assert("mp4"@[0] == 'm');
    assert("mp4"@[1] == 'p');
    assert("mp4"@[2] == '4');
    reveal_strlit("mkv");
    assert("mkv"@.len() == 3);
    assert("mkv"@[0] == 'm');
    assert("mkv"@[1] == 'k');
    assert("mkv"@[2] == 'v');
    reveal_strlit("webm");
    assert("webm"@.len() == 4);
    assert("webm"@[0] == 'w');
    assert("webm"@[1] == 'e');
    assert("webm"@[2] == 'b');
    assert("webm"@[3] == 'm');
    reveal_strlit("mov");
    assert("mov"@.len() == 3);
    assert("mov"@[0] == 'm');
    assert("mov"@[1] == 'o');
    assert("mov"@[2] == 'v');
    reveal_strlit("avi");
    assert("avi"@.len() == 3);
    assert("avi"@[0] == 'a');
    assert("avi"@[1] == 'v');
    assert("avi"@[2] == 'i');
    reveal_strlit("gif");
    assert("gif"@.len() == 3);
    assert("gif"@[0] == 'g');
    assert("gif"@[1] == 'i');
    assert("gif"@[2] == 'f');
    reveal_strlit("mp3");
    assert("mp3"@.len() == 3);
    assert("mp3"@[0] == 'm');
    assert("mp3"@[1] == 'p');
    assert("mp3"@[2] == '3');
}

/// Each container is shown under its own label.
pub proof fn lemma_container_labels(a: Container, b: Container)
    ensures
        Container::Mp4.label_of() == "MP4"@,
        Container::Mkv.label_of() == "MKV"@,
        Container::Webm.label_of() == "WebM"@,
        Container::Mov.label_of() == "MOV"@,
        Container::Avi.label_of() == "AVI"@,
        Container::Gif.label_of() == "GIF"@,
        Container::Mp3.label_of() == "MP3 (audio only)"@,
        a.label_of() == b.label_of() ==> a == b,
{
    reveal_strlit("MP4");
    assert("MP4"@.len() == 3);
    assert("MP4"@[0] == 'M');
    assert("MP4"@[1] == 'P');
    assert("MP4"@[2] == '4');
    reveal_strlit("MKV");
    assert("MKV"@.len() == 3);
    assert("MKV"@[0] == 'M');
    assert("MKV"@[1] == 'K');
    assert("MKV"@[2] == 'V');
    reveal_strlit("WebM");
    assert("WebM"@.len() == 4);
    assert("WebM"@[0] == 'W');
    assert("WebM"@[1] == 'e');
    assert("WebM"@[2] == 'b');
    assert("WebM"@[3] == 'M');
    reveal_strlit("MOV");
    assert("MOV"@.len() == 3);
    assert("MOV"@[0] == 'M');
    assert("MOV"@[1] == 'O');
    assert("MOV"@[2] == 'V');
    reveal_strlit("AVI");
    assert("AVI"@.len() == 3);
    assert("AVI"@[0] == 'A');
    assert("AVI"@[1] == 'V');
    assert("AVI"@[2] == 'I');
    reveal_strlit("GIF");
    assert("GIF"@.len() == 3);
    assert("GIF"@[0] == 'G');
    assert("GIF"@[1] == 'I');
    assert("GIF"@[2] == 'F');
    reveal_strlit("MP3 (audio only)");
    assert("MP3 (audio only)"@.len() == 16);
    assert("MP3 (audio only)"@[0] == 'M');
    assert("MP3 (audio only)"@[1] == 'P');
    assert("MP3 (audio only)"@[2] == '3');
    assert("MP3 (audio only)"@[3] == ' ');
    assert("MP3 (audio only)"@[4] == '(');
    assert("MP3 (audio only)"@[5] == 'a');
    assert("MP3 (audio only)"@[6] == 'u');
    assert("MP3 (audio only)"@[7] == 'd');
    assert("MP3 (audio only)"@[8] == 'i');
    assert("MP3 (audio only)"@[9] == 'o');
    assert("MP3 (audio only)"@[10] == ' ');
    assert("MP3 (audio only)"@[11] == 'o');
    assert("MP3 (audio only)"@[12] == 'n');
    assert("MP3 (audio only)"@[13] == 'l');
    assert("MP3 (audio only)"@[14] == 'y');
    assert("MP3 (audio only)"@[15] == ')');
}

/// Each speed preset is passed to x264/x265 under its own name.
pub proof fn lemma_preset_speed_names(a: PresetSpeed, b: PresetSpeed)
    ensures
        PresetSpeed::Ultrafast.ffmpeg_name_of() == "ultrafast"@,
        PresetSpeed::Superfast.ffmpeg_name_of() == "superfast"@,
        PresetSpeed::Veryfast.ffmpeg_name_of() == "veryfast"@,
        PresetSpeed::Faster.ffmpeg_name_of() == "faster"@,
        PresetSpeed::Fast.ffmpeg_name_of() == "fast"@,
        PresetSpeed::Medium.ffmpeg_name_of() == "medium"@,
        PresetSpeed::Slow.ffmpeg_name_of() == "slow"@,
        PresetSpeed::Slower.ffmpeg_name_of() == "slower"@,
        PresetSpeed::Veryslow.ffmpeg_name_of() == "veryslow"@,
        a.ffmpeg_name_of() == b.ffmpeg_name_of() ==> a == b,
{
    reveal_strlit("ultrafast");
    assert("ultrafast"@.len() == 9);
    assert("ultrafast"@[0] == 'u');
    assert("ultrafast"@[1] == 'l');
    assert("ultrafast"@[2] == 't');
    assert("ultrafast"@[3] == 'r');
    assert("ultrafast"@[4] == 'a');
    assert("ultrafast"@[5] == 'f');
    assert("ultrafast"@[6] == 'a');
    assert("ultrafast"@[7] == 's');
    assert("ultrafast"@[8] == 't');
    reveal_strlit("superfast");
    assert("superfast"@.len() == 9);
    assert("superfast"@[0] == 's');
    assert("superfast"@[1] == 'u');
    assert("superfast"@[2] == 'p');
    assert("superfast"@[3] == 'e');
    assert("superfast"@[4] == 'r');
    assert("superfast"@[5] == 'f');
    assert("superfast"@[6] == 'a');
    assert("superfast"@[7] == 's');
    assert("superfast"@[8] == 't');
    reveal_strlit("veryfast");
    assert("veryfast"@.len() == 8);
    assert("veryfast"@[0] == 'v');
    assert("veryfast"@[1] == 'e');
    assert("veryfast"@[2] == 'r');
    assert("veryfast"@[3] == 'y');
    assert("veryfast"@[4] == 'f');
    assert("veryfast"@[5] == 'a');
    assert("veryfast"@[6] == 's');
    assert("veryfast"@[7] == 't');
    reveal_strlit("faster");
    assert("faster"@.len() == 6);
    assert("faster"@[0] == 'f');
    assert("faster"@[1] == 'a');
    assert("faster"@[2] == 's');
    assert("faster"@[3] == 't');
    assert("faster"@[4] == 'e');
    assert("faster"@[5] == 'r');
    reveal_strlit("fast");
    assert("fast"@.len() == 4);
    assert("fast"@[0] == 'f');
    assert("fast"@[1] == 'a');
    assert("fast"@[2] == 's');
    assert("fast"@[3] == 't');
    reveal_strlit("medium");
    assert("medium"@.len() == 6);
    assert("medium"@[0] == 'm');
    assert("medium"@[1] == 'e');
    assert("medium"@[2] == 'd');
    assert("medium"@[3] == 'i');
    assert("medium"@[4] == 'u');
    assert("medium"@[5] == 'm');
    reveal_strlit("slow");
    assert("slow"@.len() == 4);
    assert("slow"@[0] == 's');
    assert("slow"@[1] == 'l');
    assert("slow"@[2] == 'o');
    assert("slow"@[3] == 'w');
    reveal_strlit("slower");
    assert("slower"@.len() == 6);
    assert("slower"@[0] == 's');
    assert("slower"@[1] == 'l');
    assert("slower"@[2] == 'o');
    assert("slower"@[3] == 'w');
    assert("slower"@[4] == 'e');
    assert("slower"@[5] == 'r');
    reveal_strlit("veryslow");
    assert("veryslow"@.len() == 8);
    assert("veryslow"@[0] == 'v');
    assert("veryslow"@[1] == 'e');
    assert("veryslow"@[2] == 'r');
    assert("veryslow"@[3] == 'y');
    assert("veryslow"@[4] == 's');
    assert("veryslow"@[5] == 'l');
    assert("veryslow"@[6] == 'o');
    assert("veryslow"@[7] == 'w');
}

/// Each H.264 profile is passed under its own name.
pub proof fn lemma_profile_names(a: Profile, b: Profile)
    ensures
        Profile::Baseline.ffmpeg_name_of() == "baseline"@,
        Profile::Main.ffmpeg_name_of() == "main"@,
        Profile::High.ffmpeg_name_of() == "high"@,
        a.ffmpeg_name_of() == b.ffmpeg_name_of() ==> a == b,
{
    reveal_strlit("baseline");
    assert("baseline"@.len() == 8);
    assert("baseline"@[0] == 'b');
    assert("baseline"@[1] == 'a');
    assert("baseline"@[2] == 's');
    assert("baseline"@[3] == 'e');
    assert("baseline"@[4] == 'l');
    assert("baseline"@[5] == 'i');
    assert("baseline"@[6] == 'n');
    assert("baseline"@[7] == 'e');
    reveal_strlit("main");
    assert("main"@.len() == 4);
    assert("main"@[0] == 'm');
    assert("main"@[1] == 'a');
    assert("main"@[2] == 'i');
    assert("main"@[3] == 'n');
    reveal_strlit("high");
    assert("high"@.len() == 4);
    assert("high"@[0] == 'h');
    assert("high"@[1] == 'i');
    assert("high"@[2] == 'g');
    assert("high"@[3] == 'h');
}

/// The `-pix_fmt` value names the chosen format, and no two formats share one.
pub proof fn lemma_pixel_format_names(a: PixelFormat, b: PixelFormat)
    ensures
        PixelFormat::Yuv420p.ffmpeg_name_of() == "yuv420p"@,
        PixelFormat::Yuv422p.ffmpeg_name_of() == "yuv422p"@,
        PixelFormat::Yuv444p.ffmpeg_name_of() == "yuv444p"@,
        PixelFormat::Nv12.ffmpeg_name_of() == "nv12"@,
        PixelFormat::Rgb24.ffmpeg_name_of() == "rgb24"@,
        a.ffmpeg_name_of() == b.ffmpeg_name_of() ==> a == b,
{
    reveal_strlit("yuv420p");
    assert("yuv420p"@.len() == 7);
    assert("yuv420p"@[0] == 'y');
    assert("yuv420p"@[1] == 'u');
    assert("yuv420p"@[2] == 'v');
    assert("yuv420p"@[3] == '4');
    assert("yuv420p"@[4] == '2');
    assert("yuv420p"@[5] == '0');
    assert("yuv420p"@[6] == 'p');
    reveal_strlit("yuv422p");
    assert("yuv422p"@.len() == 7);
    assert("yuv422p"@[0] == 'y');
    assert("yuv422p"@[1] == 'u');
    assert("yuv422p"@[2] == 'v');
    assert("yuv422p"@[3] == '4');
    assert("yuv422p"@[4] == '2');
    assert("yuv422p"@[5] == '2');
    assert("yuv422p"@[6] == 'p');
    reveal_strlit("yuv444p");
    assert("yuv444p"@.len() == 7);
    assert("yuv444p"@[0] == 'y');
    assert("yuv444p"@[1] == 'u');
    assert("yuv444p"@[2] == 'v');
    assert("yuv444p"@[3] == '4');
    assert("yuv444p"@[4] == '4');
    assert("yuv444p"@[5] == '4');
    assert("yuv444p"@[6] == 'p');
    reveal_strlit("nv12");
    assert("nv12"@.len() == 4);
    assert("nv12"@[0] == 'n');
    assert("nv12"@[1] == 'v');
    assert("nv12"@[2] == '1');
    assert("nv12"@[3] == '2');
    reveal_strlit("rgb24");
    assert("rgb24"@.len() == 5);
    assert("rgb24"@[0] == 'r');
    assert("rgb24"@[1] == 'g');
    assert("rgb24"@[2] == 'b');
    assert("rgb24"@[3] == '2');
    assert("rgb24"@[4] == '4');
}

/// Each deinterlacer is its own ffmpeg filter.
pub proof fn lemma_deinterlace_names(a: DeinterlaceMethod, b: DeinterlaceMethod)
    ensures
        DeinterlaceMethod::Yadif.ffmpeg_name_of() == "yadif"@,
        DeinterlaceMethod::Bwdif.ffmpeg_name_of() == "bwdif"@,
        a.ffmpeg_name_of() == b.ffmpeg_name_of() ==> a == b,
{
    reveal_strlit("yadif");
    assert("yadif"@.len() == 5);
    assert("yadif"@[0] == 'y');
    assert("yadif"@[1] == 'a');
    assert("yadif"@[2] == 'd');
    assert("yadif"@[3] == 'i');
    assert("yadif"@[4] == 'f');
    reveal_strlit("bwdif");
    assert("bwdif"@.len() == 5);
    assert("bwdif"@[0] == 'b');
    assert("bwdif"@[1] == 'w');
    assert("bwdif"@[2] == 'd');
    assert("bwdif"@[3] == 'i');
    assert("bwdif"@[4] == 'f');
}

/// Each scaling algorithm is its own `flags=` value.
pub proof fn lemma_scale_flags(a: ScaleAlgorithm, b: ScaleAlgorithm)
    ensures
        ScaleAlgorithm::Bilinear.ffmpeg_flag_of() == "bilinear"@,
        ScaleAlgorithm::Bicubic.ffmpeg_flag_of() == "bicubic"@,
        ScaleAlgorithm::Lanczos.ffmpeg_flag_of() == "lanczos"@,
        a.ffmpeg_flag_of() == b.ffmpeg_flag_of() ==> a == b,
{
    reveal_strlit("bilinear");
    assert("bilinear"@.len() == 8);
    assert("bilinear"@[0] == 'b');
    assert("bilinear"@[1] == 'i');
    assert("bilinear"@[2] == 'l');
    assert("bilinear"@[3] == 'i');
    assert("bilinear"@[4] == 'n');
    assert("bilinear"@[5] == 'e');
    assert("bilinear"@[6] == 'a');
    assert("bilinear"@[7] == 'r');
    reveal_strlit("bicubic");
    assert("bicubic"@.len() == 7);
    assert("bicubic"@[0] == 'b');
    assert("bicubic"@[1] == 'i');
    assert("bicubic"@[2] == 'c');
    assert("bicubic"@[3] == 'u');
    assert("bicubic"@[4] == 'b');
    assert("bicubic"@[5] == 'i');
    assert("bicubic"@[6] == 'c');
    reveal_strlit("lanczos");
    assert("lanczos"@.len() == 7);
    assert("lanczos"@[0] == 'l');
    assert("lanczos"@[1] == 'a');
    assert("lanczos"@[2] == 'n');
    assert("lanczos"@[3] == 'c');
    assert("lanczos"@[4] == 'z');
    assert("lanczos"@[5] == 'o');
    assert("lanczos"@[6] == 's');
}

/// Each movflag is its own `-movflags` word.
pub proof fn lemma_movflag_names(a: MovFlag, b: MovFlag)
    ensures
        MovFlag::FastStart.ffmpeg_name_of() == "faststart"@,
        MovFlag::FragKeyframe.ffmpeg_name_of() == "frag_keyframe"@,
        a.ffmpeg_name_of() == b.ffmpeg_name_of() ==> a == b,
{
    reveal_strlit("faststart");
    assert("faststart"@.len() == 9);
    assert("faststart"@[0] == 'f');
    assert("faststart"@[1] == 'a');
    assert("faststart"@[2] == 's');
    assert("faststart"@[3] == 't');
    assert("faststart"@[4] == 's');
    assert("faststart"@[5] == 't');
    assert("faststart"@[6] == 'a');
    assert("faststart"@[7] == 'r');
    assert("faststart"@[8] == 't');
    reveal_strlit("frag_keyframe");
    assert("frag_keyframe"@.len() == 13);
    assert("frag_keyframe"@[0] == 'f');
    assert("frag_keyframe"@[1] == 'r');
    assert("frag_keyframe"@[2] == 'a');
    assert("frag_keyframe"@[3] == 'g');
    assert("frag_keyframe"@[4] == '_');
    assert("frag_keyframe"@[5] == 'k');
    assert("frag_keyframe"@[6] == 'e');
    assert("frag_keyframe"@[7] == 'y');
    assert("frag_keyframe"@[8] == 'f');
    assert("frag_keyframe"@[9] == 'r');
    assert("frag_keyframe"@[10] == 'a');
    assert("frag_keyframe"@[11] == 'm');
    assert("frag_keyframe"@[12] == 'e');
}

/// Each language has its own tag.
pub proof fn lemma_language_codes(a: Language, b: Language)
    ensures
        Language::EnUs.code_of() == "en-US"@,
        Language::PtBr.code_of() == "pt-BR"@,
        a.code_of() == b.code_of() ==> a == b,
{
    reveal_strlit("en-US");
    assert("en-US"@.len() == 5);
    assert("en-US"@[0] == 'e');
    assert("en-US"@[1] == 'n');
    assert("en-US"@[2] == '-');
    assert("en-US"@[3] == 'U');
    assert("en-US"@[4] == 'S');
    reveal_strlit("pt-BR");
    assert("pt-BR"@.len() == 5);
    assert("pt-BR"@[0] == 'p');
    assert("pt-BR"@[1] == 't');
    assert("pt-BR"@[2] == '-');
    assert("pt-BR"@[3] == 'B');
    assert("pt-BR"@[4] == 'R');
}

/// Each language is shown under its own name.
pub proof fn lemma_language_labels(a: Language, b: Language)
    ensures
        Language::EnUs.label_of() == "English"@,
        Language::PtBr.label_of() == "Português (BR)"@,
        a.label_of() == b.label_of() ==> a == b,
{
    reveal_strlit("English");
    assert("English"@.len() == 7);
    assert("English"@[0] == 'E');
    assert("English"@[1] == 'n');
    assert("English"@[2] == 'g');
    assert("English"@[3] == 'l');
    assert("English"@[4] == 'i');
    assert("English"@[5] == 's');
    assert("English"@[6] == 'h');
    reveal_strlit("Português (BR)");
    assert("Português (BR)"@.len() == 14);
    assert("Português (BR)"@[0] == 'P');
    assert("Português (BR)"@[1] == 'o');
    assert("Português (BR)"@[2] == 'r');
    assert("Português (BR)"@[3] == 't');
    assert("Português (BR)"@[4] == 'u');
    assert("Português (BR)"@[5] == 'g');
    assert("Português (BR)"@[6] == 'u');
    assert("Português (BR)"@[7] == 'ê');
    assert("Português (BR)"@[8] == 's');
    assert("Português (BR)"@[9] == ' ');
    assert("Português (BR)"@[10] == '(');
    assert("Português (BR)"@[11] == 'B');
    assert("Português (BR)"@[12] == 'R');
    assert("Português (BR)"@[13] == ')');
}

/// What each built-in preset encodes, as its name and description say:
/// the legacy default (H.264 CRF 19, yadif, 2 threads), web H.264 (CRF
/// 23), web H.265 (CRF 28), web VP9 in WebM (CRF 30), archival H.264 (CRF
/// 16, slow), MP3 audio (192 kbps, 44.1 kHz), AAC audio in MP4 (128 kbps,
/// 44.1 kHz), Opus audio in MKV (96 kbps, 48 kHz), and an animated GIF
/// (480×270, 15 fps, no CRF).
pub proof fn lemma_builtin_preset_contents()
    ensures
        builtin_preset(0).id == "default"@,
        builtin_preset(0).params.video_codec == VideoCodec::H264,
        builtin_preset(0).params.width == 1920,
        builtin_preset(0).params.height == 1080,
        builtin_preset(0).params.crf == Some(19u8),
        builtin_preset(0).params.deinterlace == Some(DeinterlaceMethod::Yadif),
        builtin_preset(0).params.pixel_format == PixelFormat::Yuv420p,
        builtin_preset(0).params.threads == 2,
        builtin_preset(0).params.preset == PresetSpeed::Medium,
        builtin_preset(0).params.audio_bitrate == 128,
        builtin_preset(0).params.container == Container::Mp4,
        builtin_preset(0).params.audio_codec == AudioCodec::Aac,
        builtin_preset(0).params.movflags == seq![MovFlag::FastStart],
        builtin_preset(1).id == "web-h264"@,
        builtin_preset(1).params.video_codec == VideoCodec::H264,
        builtin_preset(1).params.crf == Some(23u8),
        builtin_preset(1).params.pixel_format == PixelFormat::Yuv420p,
        builtin_preset(1).params.threads == 0,
        builtin_preset(1).params.container == Container::Mp4,
        builtin_preset(1).params.movflags == seq![MovFlag::FastStart],
        builtin_preset(2).id == "web-h265"@,
        builtin_preset(2).params.video_codec == VideoCodec::H265,
        builtin_preset(2).params.crf == Some(28u8),
        builtin_preset(2).params.pixel_format == PixelFormat::Yuv420p,
        builtin_preset(2).params.threads == 0,
        builtin_preset(2).params.container == Container::Mp4,
        builtin_preset(2).params.movflags == seq![MovFlag::FastStart],
        builtin_preset(3).id == "web-vp9"@,
        builtin_preset(3).params.video_codec == VideoCodec::VP9,
        builtin_preset(3).params.container == Container::Webm,
        builtin_preset(3).params.crf == Some(30u8),
        builtin_preset(3).params.pixel_format == PixelFormat::Yuv420p,
        builtin_preset(3).params.threads == 0,
        builtin_preset(4).id == "archive-h264"@,
        builtin_preset(4).params.video_codec == VideoCodec::H264,
        builtin_preset(4).params.crf == Some(16u8),
        builtin_preset(4).params.preset == PresetSpeed::Slow,
        builtin_preset(4).params.pixel_format == PixelFormat::Yuv420p,
        builtin_preset(4).params.threads == 0,
        builtin_preset(4).params.container == Container::Mp4,
        builtin_preset(5).id == "audio-mp3"@,
        builtin_preset(5).params.video_codec == VideoCodec::Copy,
        builtin_preset(5).params.audio_codec == AudioCodec::Mp3,
        builtin_preset(5).params.container == Container::Mp3,
        builtin_preset(5).params.audio_bitrate == 192,
        builtin_preset(5).params.sample_rate == 44100,
        builtin_preset(5).params.threads == 0,
        builtin_preset(6).id == "audio-aac"@,
        builtin_preset(6).params.video_codec == VideoCodec::Copy,
        builtin_preset(6).params.audio_codec == AudioCodec::Aac,
        builtin_preset(6).params.container == Container::Mp4,
        builtin_preset(6).params.audio_bitrate == 128,
        builtin_preset(6).params.sample_rate == 44100,
        builtin_preset(6).params.threads == 0,
        builtin_preset(7).id == "audio-opus"@,
        builtin_preset(7).params.video_codec == VideoCodec::Copy,
        builtin_preset(7).params.audio_codec == AudioCodec::Opus,
        builtin_preset(7).params.container == Container::Mkv,
        builtin_preset(7).params.audio_bitrate == 96,
        builtin_preset(7).params.sample_rate == 48000,
        builtin_preset(7).params.threads == 0,
        builtin_preset(8).id == "gif"@,
        builtin_preset(8).params.video_codec == VideoCodec::Copy,
        builtin_preset(8).params.container == Container::Gif,
        builtin_preset(8).params.width == 480,
        builtin_preset(8).params.height == 270,
        builtin_preset(8).params.crf == None::<u8>,
        builtin_preset(8).params.fps == FpsMode::Fixed(15),
        builtin_preset(8).params.pixel_format == PixelFormat::Yuv420p,
        builtin_preset(8).params.threads == 0,
{
    reveal_strlit("default");
    reveal_strlit("web-h264");
    reveal_strlit("web-h265");
    reveal_strlit("web-vp9");
    reveal_strlit("archive-h264");
    reveal_strlit("audio-mp3");
    reveal_strlit("audio-aac");
    reveal_strlit("audio-opus");
    reveal_strlit("gif");
}

/// The default parameters, as the settings open: H.264 at 1920×1080 with
/// Lanczos scaling and the source's frame rate, CRF 19 and no bitrate
/// limits, the medium preset, no profile, yuv420p, no deinterlacing or
/// filters, AAC at 128 kbps in stereo at 44.1 kHz, MP4 with faststart,
/// ffmpeg's own thread count, and no metadata, trim or extra arguments.
pub proof fn lemma_default_params_values()
    ensures
        default_params().video_codec == VideoCodec::H264,
        default_params().width == 1920,
        default_params().height == 1080,
        default_params().scale_algorithm == ScaleAlgorithm::Lanczos,
        default_params().fps == FpsMode::SameAsSource,
        default_params().crf == Some(19u8),
        default_params().video_bitrate is None,
        default_params().max_bitrate is None,
        default_params().bufsize is None,
        default_params().preset == PresetSpeed::Medium,
        default_params().profile is None,
        default_params().pixel_format == PixelFormat::Yuv420p,
        default_params().deinterlace is None,
        default_params().video_filters.len() == 0,
        default_params().audio_codec == AudioCodec::Aac,
        default_params().audio_bitrate == 128,
        default_params().audio_channels == 2,
        default_params().sample_rate == 44100,
        default_params().audio_filters.len() == 0,
        default_params().container == Container::Mp4,
        default_params().movflags == seq![MovFlag::FastStart],
        default_params().threads == 0,
        default_params().metadata.len() == 0,
        default_params().trim_start is None,
        default_params().trim_end is None,
        default_params().extra_args.len() == 0,
{
}

/// The encoder speed settings the documentation gives: libvpx-vp9
/// `-cpu-used` 5 / 2 / 0, libaom-av1 `-cpu-used` 8 / 3 / 0 and SVT-AV1
/// `-preset` 13 / 5 / 0 for ultrafast / medium / veryslow (SVT-AV1 counts
/// the other way round from x264: higher is faster).
pub proof fn lemma_speed_mapping_anchors()
    ensures
        PresetSpeed::Ultrafast.vp9_cpu_used_of() == 5,
        PresetSpeed::Medium.vp9_cpu_used_of() == 2,
        PresetSpeed::Veryslow.vp9_cpu_used_of() == 0,
        PresetSpeed::Ultrafast.av1_cpu_used_of() == 8,
        PresetSpeed::Medium.av1_cpu_used_of() == 3,
        PresetSpeed::Veryslow.av1_cpu_used_of() == 0,
        PresetSpeed::Ultrafast.svtav1_preset_of() == 13,
        PresetSpeed::Medium.svtav1_preset_of() == 5,
        PresetSpeed::Veryslow.svtav1_preset_of() == 0,
{
}

/// The messages errors are reported with.
pub proof fn lemma_error_messages(detail: String)
    ensures
        MediaForgeError::Cancelled.message_of() == "Encoding cancelled by user"@,
        MediaForgeError::NoInputFiles.message_of() == "No input files selected"@,
        MediaForgeError::FfmpegProcess(detail).message_of() == "ffmpeg process failed: "@ + detail@,
        MediaForgeError::FfprobeError(detail).message_of() == "ffprobe error: "@ + detail@,
        MediaForgeError::Io(detail).message_of() == "I/O error: "@ + detail@,
        MediaForgeError::Config(detail).message_of() == "Configuration error: "@ + detail@,
        MediaForgeError::FfmpegTimeout(30).message_of() == "ffmpeg timed out after 30s without output"@,
{
    reveal_strlit("ffmpeg timed out after ");
    reveal_strlit("s without output");
    reveal_strlit("ffmpeg timed out after 30s without output");
    reveal_with_fuel(crate::text::dec, 3);
    assert(crate::text::dec(30) =~= seq!['3', '0']);
    assert("ffmpeg timed out after "@ + crate::text::dec(30) + "s without output"@
        =~= "ffmpeg timed out after 30s without output"@);
}

} // verus!
