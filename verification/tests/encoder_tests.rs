use encoder_lib::encoder::build_audio_filters;
use encoder_lib::encoder::build_filter_complex;
use encoder_lib::encoder::classify_duration;
use encoder_lib::encoder::duration_adjust_filter;
use encoder_lib::encoder::fixed4_string;
use encoder_lib::encoder::select_audio_policy;
use encoder_lib::encoder::AudioPolicy;
use encoder_lib::encoder::BitratePolicy;
use encoder_lib::encoder::DurationCorrection;
use encoder_lib::metadata::VideoMetadata;

fn meta(duration_raw_us: u64, audio_channels: u32, has_audio: bool) -> VideoMetadata {
    VideoMetadata::from_probe(duration_raw_us, 1920, 1080, 30000, 1001, audio_channels, has_audio)
}

#[test]
fn duration_boundary_is_one_millisecond() {
    // half a millisecond under the target: inside tolerance, no correction
    assert_eq!(classify_duration(59_999_500, 60), DurationCorrection::Exact);
    // two milliseconds over: trim
    assert_eq!(classify_duration(60_002_000, 60), DurationCorrection::Trim);
    // exactly one millisecond off is already outside the open tolerance
    assert_eq!(classify_duration(60_001_000, 60), DurationCorrection::Trim);
    assert_eq!(classify_duration(59_999_000, 60), DurationCorrection::Pad);
    // just inside on both sides
    assert_eq!(classify_duration(60_000_999, 60), DurationCorrection::Exact);
    assert_eq!(classify_duration(59_999_001, 60), DurationCorrection::Exact);
}

#[test]
fn duration_filter_exact_is_empty() {
    let m = meta(60_000_000, 2, true);
    assert_eq!(duration_adjust_filter(&m), String::new());
}

#[test]
fn duration_filter_trim() {
    // 60.2 s rounds to 60 s: the excess is cut at the exact second
    let m = meta(60_200_000, 2, true);
    assert_eq!(m.duration_secs, 60);
    assert_eq!(duration_adjust_filter(&m), ",trim=duration=60,setpts=PTS-STARTPTS");
}

#[test]
fn duration_filter_pad() {
    // 59.52 s rounds to 60 s: the last frame holds for 0.48 s
    let m = meta(59_520_000, 2, true);
    assert_eq!(m.duration_secs, 60);
    assert_eq!(duration_adjust_filter(&m), ",tpad=stop_mode=clone:stop_duration=0.4800");
}

#[test]
fn fixed4_rounds_half_up() {
    assert_eq!(fixed4_string(480_000), "0.4800");
    assert_eq!(fixed4_string(123_456), "0.1235");
    assert_eq!(fixed4_string(123_449), "0.1234");
    assert_eq!(fixed4_string(1_500_050), "1.5001");
    assert_eq!(fixed4_string(2_000_000), "2.0000");
}

#[test]
fn audio_policy_selection() {
    assert_eq!(select_audio_policy(false, 0), AudioPolicy::Silence);
    // the channel count of a silent source is irrelevant
    assert_eq!(select_audio_policy(false, 6), AudioPolicy::Silence);
    assert_eq!(select_audio_policy(true, 1), AudioPolicy::StereoMap);
    assert_eq!(select_audio_policy(true, 2), AudioPolicy::StereoMap);
    assert_eq!(select_audio_policy(true, 3), AudioPolicy::StereoMap);
    assert_eq!(select_audio_policy(true, 4), AudioPolicy::FourChannelMap);
    assert_eq!(select_audio_policy(true, 8), AudioPolicy::FourChannelMap);
}

#[test]
fn audio_filters_without_source_audio() {
    let m = meta(10_000_000, 0, false);
    let filters = build_audio_filters(&m, 7);
    assert_eq!(filters.len(), 3);
    assert_eq!(filters[0], "anullsrc=r=48000:cl=4c:d=7[silence]");
    assert_eq!(filters[1], "anullsrc=r=48000:cl=4c:d=10[amain]");
    assert_eq!(filters[2], "[silence][amain]concat=n=2:v=0:a=1[aout]");
}

#[test]
fn audio_filters_stereo_zero_rear_channels() {
    let m = meta(10_000_000, 2, true);
    let filters = build_audio_filters(&m, 7);
    assert_eq!(
        filters[1],
        "[2:a]aresample=48000,loudnorm=I=-24:TP=-3:LRA=18,pan=4c|c0=c0|c1=c1|c2=0*c0|c3=0*c0[amain]"
    );
}

#[test]
fn audio_filters_multichannel_passes_first_four() {
    let m = meta(10_000_000, 6, true);
    let filters = build_audio_filters(&m, 7);
    assert_eq!(
        filters[1],
        "[2:a]aresample=48000,loudnorm=I=-24:TP=-3:LRA=18,pan=4c|c0=c0|c1=c1|c2=c2|c3=c3[amain]"
    );
}

#[test]
fn filter_complex_full_graph() {
    let m = meta(60_000_000, 2, true);
    let expected = "[0:v]scale=1920:1080,fps=30000/1001,format=yuv422p,setfield=tff[slate];\n[1:v]format=yuv422p,setfield=tff[black];\n[2:v]hwdownload,format=nv12,scale=1920:1080,fps=30000/1001,format=yuv422p,setfield=tff[main];\n[slate][black][main]concat=n=3:v=1:a=0[vout];\nanullsrc=r=48000:cl=4c:d=7[silence];\n[2:a]aresample=48000,loudnorm=I=-24:TP=-3:LRA=18,pan=4c|c0=c0|c1=c1|c2=0*c0|c3=0*c0[amain];\n[silence][amain]concat=n=2:v=0:a=1[aout]";
    assert_eq!(build_filter_complex(&m, 7), expected);
}

#[test]
fn filter_complex_inlines_duration_adjustment() {
    let m = meta(60_200_000, 0, false);
    let graph = build_filter_complex(&m, 7);
    assert!(graph.contains(
        "[2:v]hwdownload,format=nv12,scale=1920:1080,fps=30000/1001,trim=duration=60,setpts=PTS-STARTPTS,format=yuv422p,setfield=tff[main]"
    ));
    assert!(graph.contains("anullsrc=r=48000:cl=4c:d=60[amain]"));
}

#[test]
fn bitrate_scenario() {
    // 56000 kbit over 60 s leaves 933 kbps, minus 160 kbps of audio: 773
    let p = BitratePolicy::agency_default();
    assert_eq!(p.video_bitrate(60), 773);
}

#[test]
fn bitrate_degenerate_scenario() {
    let p = BitratePolicy::agency_default();
    assert_eq!(p.video_bitrate(0), 3000);
}

#[test]
fn bitrate_clamps_to_policy_bounds() {
    let p = BitratePolicy::agency_default();
    // one second would budget 55840 kbps: clamped to the ceiling
    assert_eq!(p.video_bitrate(1), 5000);
    // twenty minutes would budget nothing: clamped to the floor
    assert_eq!(p.video_bitrate(1200), 500);
}

#[test]
fn encoder_rates_fix_max_and_buffer() {
    let p = BitratePolicy::agency_default();
    assert_eq!(p.encoder_rates(60), (773, 1546, 3092));
    assert_eq!(p.encoder_rates(0), (3000, 6000, 12000));
}

#[test]
fn bitrate_non_increasing_in_duration() {
    let p = BitratePolicy::agency_default();
    let mut prev = p.video_bitrate(1);
    for d in 2..600 {
        let cur = p.video_bitrate(d);
        assert!(cur <= prev);
        prev = cur;
    }
}
