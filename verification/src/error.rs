//! Errors of the library and the messages they are reported with.
use vstd::prelude::*;

use crate::text::{dec, nat_to_string, owned};

verus! {

/// What `{:?}` prints for a string: the text in double quotes, with the
/// characters that need it escaped.
pub uninterp spec fn debug_quoted(s: Seq<char>) -> Seq<char>;

/// `format!("{:?}", s)` for a string slice (std's `Debug` for `str`).
/// Claims that the result is a function of `s` alone, named
/// [`debug_quoted`]; which characters get escaped is left unsaid.
#[verifier::external_body]
fn debug_str(s: &str) -> (r: String)
    ensures
        r@ == debug_quoted(s@),
{
    format!("{:?}", s)
}

/// An error of the library. Paths and I/O errors are carried as their text.
#[derive(Debug, Clone, PartialEq, Eq)]
pub enum MediaForgeError {
    FfmpegNotFound(String),
    FfmpegProcess(String),
    FfprobeError(String),
    Io(String),
    Config(String),
    IncompatibleCodec { video_codec: String, container: String },
    NoInputFiles,
    Cancelled,
    /// ffmpeg wrote nothing on stderr for this many seconds and was stopped.
    FfmpegTimeout(u64),
}

impl MediaForgeError {
    /// The message each error is reported with.
    pub open spec fn message_of(&self) -> Seq<char> {
        match self {
            MediaForgeError::FfmpegNotFound(p) => "ffmpeg not found at `"@ + p@
                + "`. Install ffmpeg or set the path in Settings."@,
            MediaForgeError::FfmpegProcess(s) => "ffmpeg process failed: "@ + s@,
            MediaForgeError::FfprobeError(s) => "ffprobe error: "@ + s@,
            MediaForgeError::Io(s) => "I/O error: "@ + s@,
            MediaForgeError::Config(s) => "Configuration error: "@ + s@,
            MediaForgeError::IncompatibleCodec { video_codec, container } =>
                "Unsupported codec/container combination: "@ + debug_quoted(video_codec@) + " + "@
                + debug_quoted(container@),
            MediaForgeError::NoInputFiles => "No input files selected"@,
            MediaForgeError::Cancelled => "Encoding cancelled by user"@,
            MediaForgeError::FfmpegTimeout(secs) => "ffmpeg timed out after "@ + dec(secs as nat)
                + "s without output"@,
        }
    }

    /// The message the error is reported with.
    pub fn message(&self) -> (r: String)
        ensures
            r@ == self.message_of(),
    {
        match self {
            MediaForgeError::FfmpegNotFound(p) => {
                let mut r = owned("ffmpeg not found at `");
                r.append(p.as_str());
                r.append("`. Install ffmpeg or set the path in Settings.");
                r
            },
            MediaForgeError::FfmpegProcess(s) => {
                let mut r = owned("ffmpeg process failed: ");
                r.append(s.as_str());
                r
            },
            MediaForgeError::FfprobeError(s) => {
                let mut r = owned("ffprobe error: ");
                r.append(s.as_str());
                r
            },
            MediaForgeError::Io(s) => {
                let mut r = owned("I/O error: ");
                r.append(s.as_str());
                r
            },
            MediaForgeError::Config(s) => {
                let mut r = owned("Configuration error: ");
                r.append(s.as_str());
                r
            },
            MediaForgeError::IncompatibleCodec { video_codec, container } => {
                let mut r = owned("Unsupported codec/container combination: ");
                r.append(debug_str(video_codec.as_str()).as_str());
                r.append(" + ");
                r.append(debug_str(container.as_str()).as_str());
                r
            },
            MediaForgeError::NoInputFiles => owned("No input files selected"),
            MediaForgeError::Cancelled => owned("Encoding cancelled by user"),
            MediaForgeError::FfmpegTimeout(secs) => {
                let mut r = owned("ffmpeg timed out after ");
                r.append(nat_to_string(*secs).as_str());
                r.append("s without output");
                r
            },
        }
    }
}

} // verus!
