//! Tests of the encode pipeline state machine: codec selection, the fixed
//! low-latency configuration, lazy converter binding, timestamp stamping,
//! intra forcing, drain classification and packet assembly.

use encoder_arm64::encoder::{
    accept_packet, collect_packets, drain_decision, ffi, preset_option, submit_outcome,
    tune_option, CodecKind, DrainDecision, RawPacket, VideoEncoder, AVERROR_EOF, AV_PKT_FLAG_KEY,
    EAGAIN,
};
use encoder_arm64::ipc::{EncoderError, FrameData, PixelFormat};

fn frame(timestamp_ns: u64, insert_idr: bool, pixel_format: PixelFormat) -> FrameData {
    FrameData {
        width: 1920,
        height: 1080,
        timestamp_ns,
        insert_idr,
        pixel_format,
        row_pitch: 7680,
        data: vec![0; 16],
        shutdown: false,
    }
}

#[test]
fn codec_selection_with_default() {
    assert_eq!(CodecKind::from_name("h264"), CodecKind::H264);
    assert_eq!(CodecKind::from_name("hevc"), CodecKind::Hevc);
    assert_eq!(CodecKind::from_name("h265"), CodecKind::Hevc);
    // An unrecognized selector falls back to H.264.
    assert_eq!(CodecKind::from_name("av1"), CodecKind::H264);
    assert_eq!(CodecKind::from_name(""), CodecKind::H264);
}

#[test]
fn new_encoder_low_latency_defaults() {
    let e = VideoEncoder::new(2880, 1600, "hevc");
    assert_eq!(e.config.codec, CodecKind::Hevc);
    assert_eq!(e.config.width, 2880);
    assert_eq!(e.config.height, 1600);
    assert_eq!(e.config.time_base_num, 1);
    assert_eq!(e.config.time_base_den, 1_000_000_000);
    assert_eq!(e.config.framerate, 72);
    assert_eq!(e.config.gop_size, 0);
    assert_eq!(e.config.max_b_frames, 0);
    assert_eq!(e.config.bitrate_bps, 30_000_000);
    assert_eq!(e.bound_format, None);
    assert_eq!(e.frame_count, 0);
    assert_eq!(preset_option(), ("preset", "ultrafast"));
    assert_eq!(tune_option(), ("tune", "zerolatency"));
}

#[test]
fn converter_binds_lazily_and_stays_bound() {
    let mut e = VideoEncoder::new(1920, 1080, "h264");
    assert_eq!(e.bound_format, None);
    let s1 = e.begin_encode(&frame(10, false, PixelFormat::Nv12));
    assert_eq!(s1.src_format, PixelFormat::Nv12);
    assert_eq!(e.bound_format, Some(PixelFormat::Nv12));
    // The binding is reused for every later frame; the source format is
    // assumed not to change mid-stream.
    let s2 = e.begin_encode(&frame(20, false, PixelFormat::P010));
    assert_eq!(s2.src_format, PixelFormat::Nv12);
    assert_eq!(e.bound_format, Some(PixelFormat::Nv12));
    assert_eq!(e.frame_count, 2);
}

#[test]
fn submission_stamps_timestamp_and_idr() {
    let mut e = VideoEncoder::new(1920, 1080, "h264");
    let s = e.begin_encode(&frame(987_654_321, true, PixelFormat::Rgba));
    assert_eq!(s.pts, 987_654_321);
    assert!(s.force_idr);
    assert_eq!(s.row_pitch, 7680);
    assert_eq!(s.rows, 1080);
    let s2 = e.begin_encode(&frame(987_654_322, false, PixelFormat::Rgba));
    assert!(!s2.force_idr);
}

#[test]
fn single_packet_keeps_frame_timestamp() {
    let mut e = VideoEncoder::new(1920, 1080, "h264");
    let sub = e.begin_encode(&frame(424_242, false, PixelFormat::Nv12));
    // The codec reports the submitted frame's timestamp on its one output.
    let raws = vec![RawPacket { data: vec![1, 2, 3], pts: sub.pts as i64, flags: 0 }];
    let ps = collect_packets(raws);
    assert_eq!(ps.len(), 1);
    assert_eq!(ps[0].timestamp_ns, 424_242);
    assert!(!ps[0].is_idr);
}

#[test]
fn timestamps_monotonic_across_calls() {
    let mut e = VideoEncoder::new(1920, 1080, "h264");
    let mut last: u64 = 0;
    for ts in [5u64, 5, 7, 30] {
        let sub = e.begin_encode(&frame(ts, false, PixelFormat::Nv12));
        let ps = collect_packets(vec![RawPacket {
            data: vec![0],
            pts: sub.pts as i64,
            flags: 0,
        }]);
        assert!(ps[0].timestamp_ns >= last);
        last = ps[0].timestamp_ns;
    }
}

#[test]
fn insert_idr_yields_key_packet() {
    let mut e = VideoEncoder::new(1920, 1080, "h264");
    let sub = e.begin_encode(&frame(1, true, PixelFormat::Rgba));
    assert!(sub.force_idr);
    // The all-intra encoder flags the forced frame's output as a key unit.
    let raws = vec![RawPacket { data: vec![9], pts: 1, flags: AV_PKT_FLAG_KEY }];
    let ps = collect_packets(raws);
    assert!(ps.iter().any(|p| p.is_idr));
}

#[test]
fn set_bitrate_then_encode_continues() {
    let mut e = VideoEncoder::new(1920, 1080, "h264");
    let before = e.begin_encode(&frame(100, false, PixelFormat::Nv12));
    e.set_bitrate(5_000_000);
    assert_eq!(e.config.bitrate_bps, 5_000_000);
    assert_eq!(e.bound_format, Some(PixelFormat::Nv12));
    // Encoding goes on and produces packets of the same structure.
    let after = e.begin_encode(&frame(200, false, PixelFormat::Nv12));
    assert_eq!(after.src_format, before.src_format);
    assert_eq!(after.rows, before.rows);
    assert_eq!(after.row_pitch, before.row_pitch);
    assert_eq!(after.pts, 200);
    let ps = collect_packets(vec![RawPacket { data: vec![4, 5], pts: 200, flags: 0 }]);
    assert_eq!(ps.len(), 1);
    assert_eq!(ps[0].data, vec![4, 5]);
}

#[test]
fn drain_decision_classifies_codec_codes() {
    assert_eq!(drain_decision(ffi::AVERROR(EAGAIN)), DrainDecision::Stop);
    assert_eq!(drain_decision(AVERROR_EOF), DrainDecision::Stop);
    assert_eq!(drain_decision(-1), DrainDecision::Fail);
    assert_eq!(drain_decision(i32::MIN), DrainDecision::Fail);
    assert_eq!(drain_decision(0), DrainDecision::Accept);
    assert_eq!(drain_decision(1), DrainDecision::Accept);
}

#[test]
fn submission_failure_is_codec_encode_error() {
    assert_eq!(submit_outcome(-22), Err(EncoderError::CodecEncodeError));
    assert_eq!(submit_outcome(-1), Err(EncoderError::CodecEncodeError));
    assert_eq!(submit_outcome(0), Ok(()));
    assert_eq!(submit_outcome(3), Ok(()));
}

#[test]
fn averror_negates_errno() {
    assert_eq!(ffi::AVERROR(EAGAIN), -11);
    assert_eq!(ffi::AVERROR(1), -1);
}

#[test]
fn accept_packet_maps_fields() {
    let p = accept_packet(RawPacket { data: vec![7, 8], pts: 55, flags: AV_PKT_FLAG_KEY });
    assert_eq!(p.data, vec![7, 8]);
    assert_eq!(p.timestamp_ns, 55);
    assert!(p.is_idr);
    let q = accept_packet(RawPacket { data: vec![], pts: 56, flags: 2 });
    assert!(!q.is_idr);
}

#[test]
fn collect_packets_keeps_order() {
    let raws = vec![
        RawPacket { data: vec![1], pts: 10, flags: AV_PKT_FLAG_KEY },
        RawPacket { data: vec![2, 2], pts: 11, flags: 0 },
        RawPacket { data: vec![3, 3, 3], pts: 12, flags: 0 },
    ];
    let ps = collect_packets(raws);
    assert_eq!(ps.len(), 3);
    assert_eq!(ps[0].data, vec![1]);
    assert!(ps[0].is_idr);
    assert_eq!(ps[1].timestamp_ns, 11);
    assert_eq!(ps[2].data, vec![3, 3, 3]);
    assert!(!ps[2].is_idr);
}
