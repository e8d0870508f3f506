//! Normalized description of a probed source video.
//!
//! Raw durations are carried as whole microseconds, which is finer than any
//! broadcast frame rate needs; the rounded duration in seconds is the
//! authoritative target length and is tied to the raw value by an invariant.

use crate::error::EncoderError;
use crate::numstr::spec_decimal_round;
use crate::numstr::spec_is_simple_decimal;
use crate::numstr::spec_is_u32_numeral;
use crate::numstr::spec_u32_numeral_val;
use crate::numstr::spec_u64_string;
use crate::numstr::u64_to_string;
use crate::numstr::parse_decimal_round;
use crate::numstr::parse_u32;
use crate::numstr::MAX_DURATION_US;
use crate::strutil::spec_first_index;
use vstd::prelude::*;

verus! {

/// Source properties that every plan component reads.
#[derive(Debug, Clone, Copy)]
pub struct VideoMetadata {
    /// Rounded duration in whole seconds; the authoritative target length.
    pub duration_secs: u64,
    /// Unrounded probed duration in microseconds; used only to decide the
    /// duration correction.
    pub duration_raw_us: u64,
    pub width: u32,
    pub height: u32,
    pub fps_num: u32,
    pub fps_den: u32,
    /// Channel count of the first audio stream; zero when there is none.
    pub audio_channels: u32,
    pub has_audio: bool,
}

/// A microsecond duration rounded half up to whole seconds.
pub open spec fn spec_round_secs(us: u64) -> u64 {
    (((us + 500_000) as nat) / 1_000_000nat) as u64
}

impl VideoMetadata {
    /// The invariant every probed source satisfies: the raw duration is
    /// bounded, the rounded duration is its rounding, and a source without
    /// audio reports zero channels.
    pub open spec fn well_formed(self) -> bool {
        &&& self.duration_raw_us <= MAX_DURATION_US
        &&& self.duration_secs == spec_round_secs(self.duration_raw_us)
        &&& !self.has_audio ==> self.audio_channels == 0
    }

    /// Builds well-formed metadata from probed values, rounding the raw
    /// duration and normalizing the channel count of a silent source.
    pub fn from_probe(
        duration_raw_us: u64,
        width: u32,
        height: u32,
        fps_num: u32,
        fps_den: u32,
        audio_channels: u32,
        has_audio: bool,
    ) -> (r: VideoMetadata)
        requires
            duration_raw_us <= MAX_DURATION_US,
        ensures
            r.well_formed(),
            r.duration_raw_us == duration_raw_us,
            r.duration_secs == spec_round_secs(duration_raw_us),
            r.width == width,
            r.height == height,
            r.fps_num == fps_num,
            r.fps_den == fps_den,
            r.has_audio == has_audio,
            r.audio_channels == if has_audio {
                audio_channels
            } else {
                0u32
            },
    {
        VideoMetadata {
            duration_secs: (duration_raw_us + 500_000) / 1_000_000,
            duration_raw_us,
            width,
            height,
            fps_num,
            fps_den,
            audio_channels: if has_audio {
                audio_channels
            } else {
                0
            },
            has_audio,
        }
    }

    /// The duration as it is printed on the slate: the seconds followed by a
    /// double-quote mark.
    pub fn duration_display(&self) -> (r: String)
        ensures
            r@ == spec_u64_string(self.duration_secs as nat) + "\""@,
    {
        let mut s = u64_to_string(self.duration_secs);
        s.append("\"");
        s
    }
}

/// What a probed frame-rate string denotes: `num/den` split on the first
/// slash with both sides plain numerals, or a single decimal rounded half up
/// over a denominator of one.
pub open spec fn spec_frame_rate(s: Seq<char>) -> Option<(u32, u32)> {
    let k = spec_first_index(s, '/');
    if k < s.len() {
        let num = s.subrange(0, k);
        let den = s.subrange(k + 1, s.len() as int);
        if spec_is_u32_numeral(num) && spec_is_u32_numeral(den) {
            Some((spec_u32_numeral_val(num) as u32, spec_u32_numeral_val(den) as u32))
        } else {
            None
        }
    } else {
        if spec_is_simple_decimal(s) && spec_decimal_round(s) <= u32::MAX {
            Some((spec_decimal_round(s) as u32, 1u32))
        } else {
            None
        }
    }
}

/// The message reported when a frame-rate string is rejected.
pub open spec fn spec_frame_rate_error(s: Seq<char>) -> Seq<char> {
    let k = spec_first_index(s, '/');
    if k < s.len() {
        if !spec_is_u32_numeral(s.subrange(0, k)) {
            "Frame rate inválido (num)"@
        } else {
            "Frame rate inválido (den)"@
        }
    } else {
        "Frame rate inválido"@
    }
}

/// Parses a probed frame rate, either `num/den` or a plain decimal that is
/// rounded to the nearest whole rate.
pub fn parse_frame_rate(rate: &str) -> (r: Result<(u32, u32), EncoderError>)
    ensures
        r matches Ok(v) ==> spec_frame_rate(rate@) == Some(v),
        r is Err <==> spec_frame_rate(rate@) is None,
        r matches Err(e) ==> e matches EncoderError::FfprobeError(m) && m@ == spec_frame_rate_error(
            rate@,
        ),
{
    let len = rate.unicode_len();
    let k = crate::strutil::find_first(rate, '/');
    proof {
        crate::strutil::lemma_first_index_properties(rate@, '/');
    }
    if k < len {
        let num_s = rate.substring_char(0, k);
        let den_s = rate.substring_char(k + 1, len);
        match parse_u32(num_s) {
            None => Err(
                EncoderError::FfprobeError(String::from_str("Frame rate inválido (num)")),
            ),
            Some(n) => match parse_u32(den_s) {
                None => Err(
                    EncoderError::FfprobeError(String::from_str("Frame rate inválido (den)")),
                ),
                Some(d) => Ok((n, d)),
            },
        }
    } else {
        match parse_decimal_round(rate) {
            Some(v) => Ok((v, 1)),
            None => Err(EncoderError::FfprobeError(String::from_str("Frame rate inválido"))),
        }
    }
}

} // verus!
