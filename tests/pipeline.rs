use std::str::FromStr;
use tankcam::device::ConnState;
use tankcam::pipeline::{
    av1_packet, capture_next, encode_frame, encoder_config, encode_mjpeg, is_stale, since_the_epoch, to_ycbcr,
    ycbcr_planes, CaptureAction, CapturePhase, Encoder, FpsWindow, FramePlan, RawFrame,
};

fn frame(captured_ms: u128) -> RawFrame {
    RawFrame { width: 2, height: 2, rgb: vec![0, 0, 0, 255, 255, 255, 255, 0, 0, 0, 0, 255], captured_ms }
}

#[test]
fn stale_frames_are_over_threshold() {
    assert!(!is_stale(10_000, 9_000));
    assert!(is_stale(10_000, 8_999));
    assert!(!is_stale(10_000, 10_500));
    assert!(!is_stale(0, 0));
}

#[test]
fn stale_frame_is_dropped() {
    let f = frame(1_000);
    assert_eq!(encode_frame(&f, Encoder::MJPEG, 2_001, 2_001), FramePlan::Drop);
    assert_eq!(encode_frame(&f, Encoder::AV1, 2_001, 2_001), FramePlan::Drop);
    assert!(matches!(encode_frame(&f, Encoder::MJPEG, 2_000, 2_000), FramePlan::Packet(_)));
}

#[test]
fn colour_conversion_values() {
    assert_eq!(to_ycbcr(0, 0, 0), (16, 128, 128));
    assert_eq!(to_ycbcr(255, 255, 255), (235, 128, 128));
    assert_eq!(to_ycbcr(255, 0, 0), (81, 90, 240));
    assert_eq!(to_ycbcr(0, 255, 0), (145, 54, 34));
    assert_eq!(to_ycbcr(0, 0, 255), (41, 240, 110));
}

#[test]
fn planes_follow_pixels() {
    let f = frame(0);
    let p = ycbcr_planes(&f.rgb);
    assert_eq!(p.y, vec![16, 235, 81, 41]);
    assert_eq!(p.cb, vec![128, 128, 90, 240]);
    assert_eq!(p.cr, vec![128, 128, 240, 110]);
}

#[test]
fn fresh_av1_frame_gives_planes() {
    let f = frame(5_000);
    match encode_frame(&f, Encoder::AV1, 5_500, 5_600) {
        FramePlan::Av1(p) => assert_eq!(p, ycbcr_planes(&f.rgb)),
        other => panic!("expected planes, got {:?}", other),
    }
}

#[test]
fn mjpeg_packet_is_jpeg() {
    let f = frame(0);
    let p = encode_mjpeg(&f, 77).unwrap();
    assert!(p.data.len() > 4);
    assert_eq!(&p.data[0..2], &[0xFF, 0xD8]);
    assert_ne!(p.data, f.rgb);
    assert_eq!(p.frameType, None);
    assert_eq!(p.epochTime, 77);
    assert_eq!(p.encoding, Encoder::MJPEG);
}

#[test]
fn av1_packets_are_tagged() {
    let p = av1_packet(Some((vec![1, 2, 3], true)), 9).unwrap();
    assert_eq!(p.data, vec![1, 2, 3]);
    assert_eq!(p.frameType, Some("key".to_string()));
    assert_eq!(p.epochTime, 9);
    assert_eq!(p.encoding, Encoder::AV1);
    let p = av1_packet(Some((vec![4], false)), 9).unwrap();
    assert_eq!(p.frameType, Some("delta".to_string()));
    assert_eq!(av1_packet(None, 9), None);
}

#[test]
fn zero_sized_frame_is_encoded() {
    let f = RawFrame { width: 0, height: 0, rgb: vec![], captured_ms: 0 };
    assert!(matches!(encode_frame(&f, Encoder::MJPEG, 0, 0), FramePlan::Packet(_)));
}

#[test]
fn oversized_frame_fails_the_jpeg_codec() {
    let f = RawFrame { width: 70_000, height: 0, rgb: vec![], captured_ms: 0 };
    assert_eq!(encode_mjpeg(&f, 0), None);
    assert_eq!(encode_frame(&f, Encoder::MJPEG, 0, 0), FramePlan::Failed);
}

#[test]
fn encoder_settings_are_low_latency() {
    let s = encoder_config(720, 480);
    assert_eq!((s.width, s.height, s.bit_depth), (720, 480, 8));
    assert_eq!((s.min_key_frame_interval, s.max_key_frame_interval), (20, 50));
    assert_eq!((s.min_quantizer, s.quantizer, s.tiles, s.lookahead_frames), (50, 100, 4, 1));
    assert!(s.error_resilient && s.low_latency && s.full_chroma && !s.still_picture);
}

#[test]
fn encoder_names() {
    assert_eq!(Encoder::from_name("AV1"), Ok(Encoder::AV1));
    assert_eq!(Encoder::from_name("MJPEG "), Err(()));
    assert_eq!(Encoder::from_str("MJPEG"), Ok(Encoder::MJPEG));
    assert_eq!(Encoder::from_str("AV1"), Ok(Encoder::AV1));
    assert_eq!(Encoder::from_str("av1"), Err(()));
    assert_eq!(Encoder::from_str(""), Err(()));
}

#[test]
fn fps_window_counts_and_resets() {
    let mut w = FpsWindow::new(1_000);
    assert_eq!(w.deadline_ms, 2_000);
    assert_eq!(w.on_sample(1_500, 1_500), None);
    assert_eq!(w.on_sample(2_000, 2_000), None);
    assert_eq!(w.frames, 2);
    assert_eq!(w.on_sample(2_001, 2_050), Some(2));
    assert_eq!(w.frames, 0);
    assert_eq!(w.deadline_ms, 3_050);
}

#[test]
fn capture_follows_connectivity() {
    let (w, s) = (CapturePhase::Waiting, CapturePhase::Streaming);
    assert_eq!(capture_next(w, ConnState::NotConnected, false), (w, CaptureAction::Wait));
    assert_eq!(capture_next(w, ConnState::Connected, false), (s, CaptureAction::OpenDevice));
    assert_eq!(capture_next(s, ConnState::Connected, false), (s, CaptureAction::PullFrame));
    assert_eq!(capture_next(s, ConnState::Failed, false), (w, CaptureAction::Release));
    assert_eq!(capture_next(s, ConnState::Connected, true), (w, CaptureAction::Release));
    assert_eq!(capture_next(w, ConnState::Failed, false), (w, CaptureAction::Wait));
}

#[test]
fn clock_is_past_the_epoch() {
    assert!(since_the_epoch().as_millis() > 1_600_000_000_000);
}
