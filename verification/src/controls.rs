//! What the parameter controls of the window do: the rules behind the
//! bitrate fields, the deinterlace and movflag checkboxes, the filter
//! lists, the trim fields and the extra-arguments line.
use vstd::prelude::*;

use crate::enums::{DeinterlaceMethod, FpsMode, MovFlag};
use crate::job::{EncodeParams, ParamsView};
use crate::text::{is_word, join, join_strings, split_words, strs, words};

verus! {

broadcast use vstd::seq_lib::group_seq_properties;

/// `v` brought into `lo..=hi`, as the window's sliders and fields keep it.
pub open spec fn clamp(v: int, lo: int, hi: int) -> int {
    if v < lo {
        lo
    } else if v > hi {
        hi
    } else {
        v
    }
}

/// A bitrate field, which runs from 0 to 100000: 0 leaves the bitrate
/// unset.
pub open spec fn rate_field(kbps: u32) -> Option<u32> {
    if kbps > 0 {
        Some(clamp(kbps as int, 0, 100000) as u32)
    } else {
        None
    }
}

fn clamp_u32(v: u32, lo: u32, hi: u32) -> (r: u32)
    requires
        lo <= hi,
    ensures
        r == clamp(v as int, lo as int, hi as int),
{
    if v < lo {
        lo
    } else if v > hi {
        hi
    } else {
        v
    }
}

/// A text field for an optional value: empty text leaves it unset.
pub open spec fn text_field(text: Seq<char>) -> Option<Seq<char>> {
    if text.len() > 0 {
        Some(text)
    } else {
        None
    }
}

/// `flags` without `flag`, the others kept in order.
pub open spec fn without_flag(flags: Seq<MovFlag>, flag: MovFlag) -> Seq<MovFlag>
    decreases flags.len(),
{
    if flags.len() == 0 {
        flags
    } else if flags.last() == flag {
        without_flag(flags.drop_last(), flag)
    } else {
        without_flag(flags.drop_last(), flag).push(flags.last())
    }
}

/// The movflags after ticking (`on`) or clearing the box of `flag`: a
/// ticked flag is present once (appended if it was absent), a cleared one
/// is gone.
pub open spec fn movflags_with(flags: Seq<MovFlag>, flag: MovFlag, on: bool) -> Seq<MovFlag> {
    if on {
        if flags.contains(flag) {
            flags
        } else {
            flags.push(flag)
        }
    } else {
        without_flag(flags, flag)
    }
}

fn text_option(text: String) -> (r: Option<String>)
    ensures
        match r {
            Some(t) => text_field(text@) == Some(t@),
            None => text_field(text@) is None,
        },
{
    if text.unicode_len() > 0 {
        Some(text)
    } else {
        None
    }
}

impl EncodeParams {
    /// The video bitrate field (kbps, up to 100000; 0 for none).
    pub fn set_video_bitrate(&mut self, kbps: u32)
        ensures
            final(self)@ == (ParamsView { video_bitrate: rate_field(kbps), ..old(self)@ }),
    {
        self.video_bitrate = if kbps > 0 {
            Some(clamp_u32(kbps, 0, 100000))
        } else {
            None
        };
    }

    /// The maximum bitrate field (kbps, up to 100000; 0 for none).
    pub fn set_max_bitrate(&mut self, kbps: u32)
        ensures
            final(self)@ == (ParamsView { max_bitrate: rate_field(kbps), ..old(self)@ }),
    {
        self.max_bitrate = if kbps > 0 {
            Some(clamp_u32(kbps, 0, 100000))
        } else {
            None
        };
    }

    /// The rate-control buffer field (kbit, up to 100000; 0 for none).
    pub fn set_bufsize(&mut self, kbit: u32)
        ensures
            final(self)@ == (ParamsView { bufsize: rate_field(kbit), ..old(self)@ }),
    {
        self.bufsize = if kbit > 0 {
            Some(clamp_u32(kbit, 0, 100000))
        } else {
            None
        };
    }

    /// The CRF slider (0 to 51), or its "Auto" button (`None`).
    pub fn set_crf(&mut self, crf: Option<u8>)
        ensures
            final(self)@ == (ParamsView {
                crf: match crf {
                    Some(c) => Some(clamp(c as int, 0, 51) as u8),
                    None => None,
                },
                ..old(self)@
            }),
    {
        self.crf = match crf {
            Some(c) => Some(if c > 51 {
                51
            } else {
                c
            }),
            None => None,
        };
    }

    /// The size fields: width 64 to 7680, height 64 to 4320.
    pub fn set_size(&mut self, width: u32, height: u32)
        ensures
            final(self)@ == (ParamsView {
                width: clamp(width as int, 64, 7680) as u32,
                height: clamp(height as int, 64, 4320) as u32,
                ..old(self)@
            }),
    {
        self.width = clamp_u32(width, 64, 7680);
        self.height = clamp_u32(height, 64, 4320);
    }

    /// The frame-rate field of a fixed rate (1 to 120 fps).
    pub fn set_fixed_fps(&mut self, fps: u32)
        ensures
            final(self)@ == (ParamsView {
                fps: FpsMode::Fixed(clamp(fps as int, 1, 120) as u32),
                ..old(self)@
            }),
    {
        self.fps = FpsMode::Fixed(clamp_u32(fps, 1, 120));
    }

    /// The thread-count field (0, for ffmpeg's choice, to 32).
    pub fn set_threads(&mut self, threads: u8)
        ensures
            final(self)@ == (ParamsView { threads: clamp(threads as int, 0, 32) as u8, ..old(self)@ }),
    {
        self.threads = if threads > 32 {
            32
        } else {
            threads
        };
    }

    /// The audio quality slider (32 to 320 kbps).
    pub fn set_audio_bitrate(&mut self, kbps: u32)
        ensures
            final(self)@ == (ParamsView {
                audio_bitrate: clamp(kbps as int, 32, 320) as u32,
                ..old(self)@
            }),
    {
        self.audio_bitrate = clamp_u32(kbps, 32, 320);
    }

    /// The channel-count field (1 to 8).
    pub fn set_audio_channels(&mut self, channels: u8)
        ensures
            final(self)@ == (ParamsView {
                audio_channels: clamp(channels as int, 1, 8) as u8,
                ..old(self)@
            }),
    {
        self.audio_channels = if channels < 1 {
            1
        } else if channels > 8 {
            8
        } else {
            channels
        };
    }

    /// The deinterlace checkbox: ticking it chooses yadif.
    pub fn set_deinterlace(&mut self, on: bool)
        ensures
            final(self)@ == (ParamsView {
                deinterlace: if on {
                    Some(DeinterlaceMethod::Yadif)
                } else {
                    None
                },
                ..old(self)@
            }),
    {
        self.deinterlace = if on {
            Some(DeinterlaceMethod::Yadif)
        } else {
            None
        };
    }

    /// The CRF slider of the simple mode, which always encodes with a CRF:
    /// an unset CRF becomes 19, the value the slider shows.
    pub fn ensure_crf(&mut self)
        ensures
            final(self)@ == (ParamsView {
                crf: match old(self).crf {
                    Some(c) => Some(c),
                    None => Some(19u8),
                },
                ..old(self)@
            }),
    {
        if self.crf.is_none() {
            self.crf = Some(19);
        }
    }

    /// A movflag checkbox.
    pub fn set_movflag(&mut self, flag: MovFlag, on: bool)
        ensures
            final(self)@ == (ParamsView {
                movflags: movflags_with(old(self)@.movflags, flag, on),
                ..old(self)@
            }),
    {
        let ghost m0 = self.movflags@;
        let mut present = false;
        let mut kept: Vec<MovFlag> = Vec::new();
        let mut i: usize = 0;
        while i < self.movflags.len()
            invariant
                m0 == self.movflags@,
                i <= m0.len(),
                present <==> m0.take(i as int).contains(flag),
                kept@ == without_flag(m0.take(i as int), flag),
            decreases m0.len() - i,
        {
            let f = self.movflags[i];
            assert(m0.take(i + 1) =~= m0.take(i as int).push(f));
            assert(m0.take(i + 1).drop_last() =~= m0.take(i as int));
            if f == flag {
                present = true;
                assert(m0.take(i + 1)[i as int] == flag);
            } else {
                kept.push(f);
                assert(m0.take(i as int).contains(flag) <==> m0.take(i + 1).contains(flag)) by {
                    if m0.take(i + 1).contains(flag) {
                        let k = choose|k: int| 0 <= k < i + 1 && #[trigger] m0.take(i + 1)[k] == flag;
                        assert(k != i);
                        assert(m0.take(i as int)[k] == flag);
                    }
                    if m0.take(i as int).contains(flag) {
                        let k = choose|k: int| 0 <= k < i && #[trigger] m0.take(i as int)[k] == flag;
                        assert(m0.take(i + 1)[k] == flag);
                    }
                }
            }
            i = i + 1;
        }
        assert(m0.take(m0.len() as int) =~= m0);
        if on {
            if !present {
                self.movflags.push(flag);
            }
        } else {
            self.movflags = kept;
        }
    }

    /// Removes the `i`-th video filter (its ✕ button).
    pub fn remove_video_filter(&mut self, i: usize)
        requires
            i < old(self).video_filters@.len(),
        ensures
            final(self)@ == (ParamsView {
                video_filters: old(self)@.video_filters.remove(i as int),
                ..old(self)@
            }),
    {
        self.video_filters.remove(i);
    }

    /// Removes the `i`-th audio filter (its ✕ button).
    pub fn remove_audio_filter(&mut self, i: usize)
        requires
            i < old(self).audio_filters@.len(),
        ensures
            final(self)@ == (ParamsView {
                audio_filters: old(self)@.audio_filters.remove(i as int),
                ..old(self)@
            }),
    {
        self.audio_filters.remove(i);
    }

    /// The trim-start field: empty text means no trim.
    pub fn set_trim_start(&mut self, text: String)
        ensures
            final(self)@ == (ParamsView { trim_start: text_field(text@), ..old(self)@ }),
    {
        self.trim_start = text_option(text);
    }

    /// The trim-end field: empty text means no trim.
    pub fn set_trim_end(&mut self, text: String)
        ensures
            final(self)@ == (ParamsView { trim_end: text_field(text@), ..old(self)@ }),
    {
        self.trim_end = text_option(text);
    }

    /// The extra arguments as the one-line field shows them: joined by
    /// single spaces.
    pub fn extra_args_text(&self) -> (r: String)
        ensures
            r@ == join(self@.extra_args, " "@),
    {
        join_strings(&self.extra_args, " ")
    }

    /// The extra-arguments field: its whitespace-separated words.
    pub fn set_extra_args_text(&mut self, text: &str)
        ensures
            final(self)@ == (ParamsView { extra_args: words(text@), ..old(self)@ }),
    {
        self.extra_args = split_words(text);
    }
}

/// The extra-arguments line is shown and read back on every frame, so
/// reading back what it shows must change nothing: arguments that are words
/// (not empty, no whitespace) come back unchanged, and whatever was typed
/// reads back, once shown, as the same arguments.
pub proof fn lemma_extra_args_round_trip(args: Seq<Seq<char>>, typed: Seq<char>)
    requires
        forall|i: int| 0 <= i < args.len() ==> is_word(#[trigger] args[i]),
    ensures
        words(join(args, " "@)) == args,
        words(join(words(typed), " "@)) == words(typed),
{
    crate::text::lemma_words_of_joined(args);
    crate::text::lemma_words_are_words(typed);
    crate::text::lemma_words_of_joined(words(typed));
}

} // verus!
