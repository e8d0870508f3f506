//! The encode plan proper: duration correction, audio policy, the composed
//! filter graph, and the size-constrained bitrate budget.
//!
//! The filter graph is emitted as text whose stage order and labels are
//! load-bearing: the external encoder invocation consumes it verbatim, so
//! every serialization below is pinned character for character.

use crate::metadata::VideoMetadata;
use crate::numstr::spec_digit_char;
use crate::numstr::spec_u64_string;
use crate::numstr::u64_to_string;
use vstd::arithmetic::div_mod::lemma_div_is_ordered_by_denominator;
use vstd::prelude::*;

verus! {

/// Seconds of identification slate at the head of the program.
pub const SLATE_SECONDS: u64 = 5;

/// Seconds of solid black between the slate and the source.
pub const BLACK_SECONDS: u64 = 2;

/// Half a millisecond below which a duration mismatch is ignored, in
/// microseconds on either side.
pub const DURATION_TOLERANCE_US: u64 = 1000;

/// The three mutually exclusive duration decisions.
#[derive(Debug, Clone, Copy, PartialEq, Eq, Structural)]
pub enum DurationCorrection {
    /// The raw duration already matches the target within tolerance.
    Exact,
    /// The source runs long: cut it to the target and reset timestamps.
    Trim,
    /// The source runs short: hold the final frame for the missing time.
    Pad,
}

/// Which correction a raw duration needs against an integer-second target:
/// none within one millisecond, a trim when long, a pad when short.
pub open spec fn spec_duration_correction(raw_us: u64, target_secs: u64) -> DurationCorrection {
    let target_us = target_secs * 1_000_000;
    if raw_us < target_us + DURATION_TOLERANCE_US && target_us < raw_us + DURATION_TOLERANCE_US {
        DurationCorrection::Exact
    } else if raw_us > target_us {
        DurationCorrection::Trim
    } else {
        DurationCorrection::Pad
    }
}

/// Decides the duration correction for a raw duration in microseconds
/// against a target in whole seconds.
pub fn classify_duration(raw_us: u64, target_secs: u64) -> (r: DurationCorrection)
    requires
        target_secs <= 1_000_000_000_000,
    ensures
        r == spec_duration_correction(raw_us, target_secs),
{
    let target_us = target_secs * 1_000_000;
    if raw_us < target_us + DURATION_TOLERANCE_US && target_us < raw_us + DURATION_TOLERANCE_US {
        DurationCorrection::Exact
    } else if raw_us > target_us {
        DurationCorrection::Trim
    } else {
        DurationCorrection::Pad
    }
}

/// Duration law: the three decisions are exhaustive and mutually exclusive,
/// with the boundary at exactly one millisecond of delta — strictly inside
/// the tolerance keeps the source, at or beyond it trims or pads.
pub proof fn lemma_duration_trichotomy(raw_us: u64, target_secs: u64)
    ensures
        spec_duration_correction(raw_us, target_secs) == DurationCorrection::Exact <==> {
            let t = target_secs * 1_000_000;
            raw_us < t + DURATION_TOLERANCE_US && t < raw_us + DURATION_TOLERANCE_US
        },
        spec_duration_correction(raw_us, target_secs) == DurationCorrection::Trim <==> raw_us
            >= target_secs * 1_000_000 + DURATION_TOLERANCE_US,
        spec_duration_correction(raw_us, target_secs) == DurationCorrection::Pad <==> raw_us
            + DURATION_TOLERANCE_US <= target_secs * 1_000_000,
{
}

/// Four digits, zero padded.
pub open spec fn spec_pad4(n: nat) -> Seq<char> {
    seq![
        spec_digit_char((n / 1000) as int % 10),
        spec_digit_char((n / 100) as int % 10),
        spec_digit_char((n / 10) as int % 10),
        spec_digit_char(n as int % 10),
    ]
}

/// A microsecond count written as decimal seconds with four fractional
/// digits, rounded half up to the fourth digit.
pub open spec fn spec_fixed4(us: nat) -> Seq<char> {
    let t = (us + 50) / 100;
    spec_u64_string(t / 10_000) + "."@ + spec_pad4(t % 10_000)
}

/// Renders microseconds as seconds with four fractional digits.
pub fn fixed4_string(us: u64) -> (r: String)
    requires
        us <= 1_000_000_000_000_000,
    ensures
        r@ == spec_fixed4(us as nat),
{
    let t = (us + 50) / 100;
    let whole = t / 10_000;
    let frac = t % 10_000;
    let mut s = u64_to_string(whole);
    s.append(".");
    s.append(crate::numstr::digit_str(frac / 1000));
    s.append(crate::numstr::digit_str((frac / 100) % 10));
    s.append(crate::numstr::digit_str((frac / 10) % 10));
    s.append(crate::numstr::digit_str(frac % 10));
    proof {
        assert(s@ =~= spec_fixed4(us as nat));
    }
    s
}

/// The inline filter fragment the duration decision serializes to: empty,
/// a trim to the exact target with a timestamp reset, or a clone-mode pad
/// holding the last frame for the missing seconds.
pub open spec fn spec_duration_filter(raw_us: u64, target_secs: u64) -> Seq<char> {
    match spec_duration_correction(raw_us, target_secs) {
        DurationCorrection::Exact => Seq::<char>::empty(),
        DurationCorrection::Trim => ",trim=duration="@ + spec_u64_string(target_secs as nat)
            + ",setpts=PTS-STARTPTS"@,
        DurationCorrection::Pad => ",tpad=stop_mode=clone:stop_duration="@ + spec_fixed4(
            (target_secs * 1_000_000 - raw_us) as nat,
        ),
    }
}

/// Emits the filter fragment that adjusts the source to the exact target
/// second: nothing within tolerance, a trim when frames run over, a
/// last-frame freeze when they run short.
pub fn duration_adjust_filter(metadata: &VideoMetadata) -> (r: String)
    requires
        metadata.well_formed(),
    ensures
        r@ == spec_duration_filter(metadata.duration_raw_us, metadata.duration_secs),
{
    let raw_us = metadata.duration_raw_us;
    let target_secs = metadata.duration_secs;
    match classify_duration(raw_us, target_secs) {
        DurationCorrection::Exact => {
            let s = String::new();
            proof {
                assert(s@ =~= spec_duration_filter(raw_us, target_secs));
            }
            s
        },
        DurationCorrection::Trim => {
            let mut s = String::from_str(",trim=duration=");
            let digits = u64_to_string(target_secs);
            s.append(digits.as_str());
            s.append(",setpts=PTS-STARTPTS");
            s
        },
        DurationCorrection::Pad => {
            let pad_us = target_secs * 1_000_000 - raw_us;
            let mut s = String::from_str(",tpad=stop_mode=clone:stop_duration=");
            let fixed = fixed4_string(pad_us);
            s.append(fixed.as_str());
            s
        },
    }
}

/// The three mutually exclusive audio strategies.
#[derive(Debug, Clone, Copy, PartialEq, Eq, Structural)]
pub enum AudioPolicy {
    /// No source audio: synthesize silence for the full source duration.
    Silence,
    /// One to three channels: resample, normalize loudness, map the front
    /// pair and force channels two and three to explicit zero gain.
    StereoMap,
    /// Four or more channels: resample, normalize loudness, pass the first
    /// four channels through positionally.
    FourChannelMap,
}

/// Which audio strategy a source gets: silence without audio, the
/// four-channel pass-through at four or more channels, the zero-padded
/// stereo map below that.
pub open spec fn spec_audio_policy(has_audio: bool, channels: u32) -> AudioPolicy {
    if !has_audio {
        AudioPolicy::Silence
    } else if channels >= 4 {
        AudioPolicy::FourChannelMap
    } else {
        AudioPolicy::StereoMap
    }
}

/// Selects the audio strategy for a source.
pub fn select_audio_policy(has_audio: bool, audio_channels: u32) -> (r: AudioPolicy)
    ensures
        r == spec_audio_policy(has_audio, audio_channels),
{
    if !has_audio {
        AudioPolicy::Silence
    } else if audio_channels >= 4 {
        AudioPolicy::FourChannelMap
    } else {
        AudioPolicy::StereoMap
    }
}

/// Audio law: a source without audio always gets full-duration silence,
/// whatever its reported channel count; one to three channels always take
/// the map that zeroes channels two and three; four or more always take the
/// pass-through that zeroes none of the first four.
pub proof fn lemma_audio_policy_selection(has_audio: bool, channels: u32)
    ensures
        !has_audio ==> spec_audio_policy(has_audio, channels) == AudioPolicy::Silence,
        has_audio && 1 <= channels < 4 ==> spec_audio_policy(has_audio, channels)
            == AudioPolicy::StereoMap,
        has_audio && channels >= 4 ==> spec_audio_policy(has_audio, channels)
            == AudioPolicy::FourChannelMap,
{
}

/// The generated-silence stage that covers the slate and black lead-in.
pub open spec fn spec_silence_filter(silence_secs: nat) -> Seq<char> {
    "anullsrc=r=48000:cl=4c:d="@ + spec_u64_string(silence_secs) + "[silence]"@
}

/// The source-audio stage, by policy: generated silence for the source
/// duration, or the resample/normalize/map chain for real audio.
pub open spec fn spec_audio_main_filter(meta: VideoMetadata) -> Seq<char> {
    match spec_audio_policy(meta.has_audio, meta.audio_channels) {
        AudioPolicy::Silence => "anullsrc=r=48000:cl=4c:d="@ + spec_u64_string(
            meta.duration_secs as nat,
        ) + "[amain]"@,
        AudioPolicy::FourChannelMap => "[2:a]aresample=48000,loudnorm=I=-24:TP=-3:LRA=18,pan=4c|c0=c0|c1=c1|c2=c2|c3=c3[amain]"@,
        AudioPolicy::StereoMap => "[2:a]aresample=48000,loudnorm=I=-24:TP=-3:LRA=18,pan=4c|c0=c0|c1=c1|c2=0*c0|c3=0*c0[amain]"@,
    }
}

/// The concatenation stage joining lead-in silence and source audio.
pub open spec fn spec_audio_concat_filter() -> Seq<char> {
    "[silence][amain]concat=n=2:v=0:a=1[aout]"@
}

/// Emits the audio stages in graph order: lead-in silence, the source-audio
/// stage chosen by policy, and their concatenation into `[aout]`.
pub fn build_audio_filters(metadata: &VideoMetadata, silence_duration: i32) -> (r: Vec<String>)
    requires
        metadata.well_formed(),
        0 <= silence_duration,
    ensures
        r@.len() == 3,
        r@[0]@ == spec_silence_filter(silence_duration as nat),
        r@[1]@ == spec_audio_main_filter(*metadata),
        r@[2]@ == spec_audio_concat_filter(),
{
    let mut filters: Vec<String> = Vec::new();

    let mut silence = String::from_str("anullsrc=r=48000:cl=4c:d=");
    let silence_digits = u64_to_string(silence_duration as u64);
    silence.append(silence_digits.as_str());
    silence.append("[silence]");
    filters.push(silence);

    let main = match select_audio_policy(metadata.has_audio, metadata.audio_channels) {
        AudioPolicy::Silence => {
            let mut s = String::from_str("anullsrc=r=48000:cl=4c:d=");
            let digits = u64_to_string(metadata.duration_secs);
            s.append(digits.as_str());
            s.append("[amain]");
            s
        },
        AudioPolicy::FourChannelMap => String::from_str(
            "[2:a]aresample=48000,loudnorm=I=-24:TP=-3:LRA=18,pan=4c|c0=c0|c1=c1|c2=c2|c3=c3[amain]",
        ),
        AudioPolicy::StereoMap => String::from_str(
            "[2:a]aresample=48000,loudnorm=I=-24:TP=-3:LRA=18,pan=4c|c0=c0|c1=c1|c2=0*c0|c3=0*c0[amain]",
        ),
    };
    filters.push(main);

    filters.push(String::from_str("[silence][amain]concat=n=2:v=0:a=1[aout]"));
    filters
}

/// The format tail every video stage must converge on before the
/// concatenation: one pixel format and one scan mode, interlaced
/// top-field-first.
pub open spec fn spec_video_format_tail() -> Seq<char> {
    "format=yuv422p,setfield=tff"@
}

/// The slate stage: the looped image scaled to program resolution and rate.
pub open spec fn spec_slate_stage() -> Seq<char> {
    "[0:v]scale=1920:1080,fps=30000/1001,format=yuv422p,setfield=tff[slate]"@
}

/// The solid-color buffer stage.
pub open spec fn spec_black_stage() -> Seq<char> {
    "[1:v]format=yuv422p,setfield=tff[black]"@
}

/// The main source stage, with the duration correction inlined before the
/// format tail.
pub open spec fn spec_main_stage(meta: VideoMetadata) -> Seq<char> {
    "[2:v]hwdownload,format=nv12,scale=1920:1080,fps=30000/1001"@ + spec_duration_filter(
        meta.duration_raw_us,
        meta.duration_secs,
    ) + ",format=yuv422p,setfield=tff[main]"@
}

/// Format-convergence law: every video stage of the graph carries the same
/// pixel-format and scan-mode tail immediately before its output label, so
/// the three-way concatenation never joins mismatched streams.
pub proof fn lemma_video_stages_converge(meta: VideoMetadata)
    ensures
        spec_slate_stage() =~= "[0:v]scale=1920:1080,fps=30000/1001,"@ + spec_video_format_tail()
            + "[slate]"@,
        spec_black_stage() =~= "[1:v]"@ + spec_video_format_tail() + "[black]"@,
        spec_main_stage(meta) =~= ("[2:v]hwdownload,format=nv12,scale=1920:1080,fps=30000/1001"@
            + spec_duration_filter(meta.duration_raw_us, meta.duration_secs) + ","@)
            + spec_video_format_tail() + "[main]"@,
{
    reveal_strlit("[0:v]scale=1920:1080,fps=30000/1001,format=yuv422p,setfield=tff[slate]");
    reveal_strlit("[0:v]scale=1920:1080,fps=30000/1001,");
    reveal_strlit("[1:v]format=yuv422p,setfield=tff[black]");
    reveal_strlit("[1:v]");
    reveal_strlit("format=yuv422p,setfield=tff");
    reveal_strlit("[slate]");
    reveal_strlit("[black]");
    reveal_strlit("[main]");
    reveal_strlit(",format=yuv422p,setfield=tff[main]");
    reveal_strlit(",");
}

/// The whole filter graph in fixed order: slate, black and corrected source
/// converging on one format before the three-way video concatenation, then
/// the audio stages and their two-way concatenation, joined by `";\n"`.
pub open spec fn spec_filter_complex(meta: VideoMetadata, silence_secs: nat) -> Seq<char> {
    spec_slate_stage() + ";\n"@ + spec_black_stage() + ";\n"@ + spec_main_stage(meta) + ";\n"@
        + "[slate][black][main]concat=n=3:v=1:a=0[vout]"@ + ";\n"@ + spec_silence_filter(
        silence_secs,
    ) + ";\n"@ + spec_audio_main_filter(meta) + ";\n"@ + spec_audio_concat_filter()
}

/// Assembles the complete filter graph for the slate + black + source
/// program, video stages first, audio stages after.
pub fn build_filter_complex(metadata: &VideoMetadata, silence_duration: i32) -> (r: String)
    requires
        metadata.well_formed(),
        0 <= silence_duration,
    ensures
        r@ == spec_filter_complex(*metadata, silence_duration as nat),
{
    let dur_adjust = duration_adjust_filter(metadata);
    let audio = build_audio_filters(metadata, silence_duration);

    let mut main_stage = String::from_str(
        "[2:v]hwdownload,format=nv12,scale=1920:1080,fps=30000/1001",
    );
    main_stage.append(dur_adjust.as_str());
    main_stage.append(",format=yuv422p,setfield=tff[main]");

    let mut s = String::from_str(
        "[0:v]scale=1920:1080,fps=30000/1001,format=yuv422p,setfield=tff[slate]",
    );
    s.append(";\n");
    s.append("[1:v]format=yuv422p,setfield=tff[black]");
    s.append(";\n");
    s.append(main_stage.as_str());
    s.append(";\n");
    s.append("[slate][black][main]concat=n=3:v=1:a=0[vout]");
    s.append(";\n");
    s.append(audio[0].as_str());
    s.append(";\n");
    s.append(audio[1].as_str());
    s.append(";\n");
    s.append(audio[2].as_str());
    s
}

/// Policy constants for the size-constrained preview output: keep the file
/// near `target_kbits` total, reserving `audio_kbps` for audio, and clamp
/// the video bitrate to `[min_kbps, max_kbps]`.  `fallback_kbps` is the
/// documented constant used when the duration is zero.
#[derive(Debug, Clone, Copy)]
pub struct BitratePolicy {
    pub target_kbits: u64,
    pub audio_kbps: u64,
    pub min_kbps: u64,
    pub max_kbps: u64,
    pub fallback_kbps: u64,
}

impl BitratePolicy {
    /// What `video_bitrate` returns: the per-second budget minus the audio
    /// share, clamped to the policy range; the fallback constant (clamped
    /// the same way) when the duration is zero.
    pub open spec fn spec_video_bitrate(self, duration_secs: u64) -> u64 {
        let raw = if duration_secs == 0 {
            self.fallback_kbps
        } else {
            let per_second = self.target_kbits as int / duration_secs as int;
            if per_second >= self.audio_kbps {
                (per_second - self.audio_kbps) as u64
            } else {
                0u64
            }
        };
        if raw < self.min_kbps {
            self.min_kbps
        } else if raw > self.max_kbps {
            self.max_kbps
        } else {
            raw
        }
    }

    /// The fixed policy of the lightweight preview encode: about seven
    /// megabytes total at a 160 kbps audio share.
    pub fn agency_default() -> (r: BitratePolicy)
        ensures
            r == (BitratePolicy {
                target_kbits: 56_000u64,
                audio_kbps: 160u64,
                min_kbps: 500u64,
                max_kbps: 5000u64,
                fallback_kbps: 3000u64,
            }),
    {
        BitratePolicy {
            target_kbits: 56_000,
            audio_kbps: 160,
            min_kbps: 500,
            max_kbps: 5000,
            fallback_kbps: 3000,
        }
    }

    /// The three rate parameters handed to the encoder for a source of
    /// `duration_secs` seconds: the target bitrate, a maximum of twice the
    /// target, and a buffer of four times the target, by fixed policy.
    pub fn encoder_rates(&self, duration_secs: u64) -> (r: (u64, u64, u64))
        requires
            self.min_kbps <= 4_000_000_000,
            self.max_kbps <= 4_000_000_000,
        ensures
            r.0 == self.spec_video_bitrate(duration_secs),
            r.1 == 2 * r.0,
            r.2 == 4 * r.0,
    {
        let target = self.video_bitrate(duration_secs);
        (target, 2 * target, 4 * target)
    }

    /// Video bitrate in kbps for a source of `duration_secs` seconds.
    pub fn video_bitrate(&self, duration_secs: u64) -> (r: u64)
        ensures
            r == self.spec_video_bitrate(duration_secs),
    {
        let raw = if duration_secs == 0 {
            self.fallback_kbps
        } else {
            let per_second = self.target_kbits / duration_secs;
            if per_second >= self.audio_kbps {
                per_second - self.audio_kbps
            } else {
                0
            }
        };
        if raw < self.min_kbps {
            self.min_kbps
        } else if raw > self.max_kbps {
            self.max_kbps
        } else {
            raw
        }
    }
}

/// Bitrate law: with the bounds in order, the budget always lands inside
/// them, and it never increases as the duration grows.
pub proof fn lemma_bitrate_monotonic_and_bounded(p: BitratePolicy, d1: u64, d2: u64)
    requires
        p.min_kbps <= p.max_kbps,
        0 < d1 <= d2,
    ensures
        p.min_kbps <= p.spec_video_bitrate(d1) <= p.max_kbps,
        p.spec_video_bitrate(d2) <= p.spec_video_bitrate(d1),
{
    lemma_div_is_ordered_by_denominator(p.target_kbits as int, d1 as int, d2 as int);
}

} // verus!
