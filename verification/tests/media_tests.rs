use p2p_screenshare::media::{
    format_supported, parse_format, EncodeAction, EncodeEvent, EncodePhase, PixelFormat,
    ScaleAlgorithm, VideoEncoder,
};

#[test]
fn parse_format_maps_every_capture_format() {
    assert_eq!(parse_format(2), PixelFormat::Yuv420p);
    assert_eq!(parse_format(4), PixelFormat::Yuyv422);
    assert_eq!(parse_format(7), PixelFormat::Rgbz);
    assert_eq!(parse_format(8), PixelFormat::Bgrz);
    assert_eq!(parse_format(11), PixelFormat::Rgba);
    assert_eq!(parse_format(15), PixelFormat::Rgb24);
}

#[test]
fn format_supported_rejects_unknown_ids() {
    for id in [0u32, 1, 3, 5, 6, 9, 10, 12, 13, 14, 16, 100, u32::MAX] {
        assert!(!format_supported(id), "id {id}");
    }
    for id in [2u32, 4, 7, 8, 11, 15] {
        assert!(format_supported(id), "id {id}");
    }
}

#[test]
fn parse_format_gives_distinct_layouts() {
    let ids = [2u32, 4, 7, 8, 11, 15];
    for a in ids {
        for b in ids {
            assert_eq!(a == b, parse_format(a) == parse_format(b));
        }
    }
}

#[test]
fn encoder_new_uses_fixed_h264_settings() {
    let e = VideoEncoder::new(2560, 1440, 8);
    assert_eq!(e.settings.width, 2560);
    assert_eq!(e.settings.height, 1440);
    assert_eq!(e.settings.format, PixelFormat::Yuv420p);
    assert_eq!(e.settings.bit_rate, 2_000_000);
    assert_eq!(e.settings.max_b_frames, 0);
    assert_eq!(e.settings.gop, 60);
    assert_eq!((e.settings.time_base_num, e.settings.time_base_den), (1, 60));
    assert_eq!(e.settings.preset, "ultrafast");
    assert_eq!(e.settings.tune, "zerolatency");
    assert_eq!(e.scaler.src_format, PixelFormat::Bgrz);
    assert_eq!((e.scaler.src_width, e.scaler.src_height), (2560, 1440));
    assert_eq!(e.scaler.dst_format, PixelFormat::Yuv420p);
    assert_eq!((e.scaler.dst_width, e.scaler.dst_height), (2560, 1440));
    assert_eq!(e.scaler.algorithm, ScaleAlgorithm::FastBilinear);
    assert_eq!(e.frame_count(), 0);
    assert_eq!(e.phase(), EncodePhase::AwaitingFrame);
}

fn encode_one(e: &mut VideoEncoder, packets: &[bool]) -> i64 {
    let pts = match e.step(EncodeEvent::FrameReceived { format: 11, width: 4, height: 2 }) {
        EncodeAction::Convert { src_format, dst_format, width, height, pts } => {
            assert_eq!(src_format, PixelFormat::Rgba);
            assert_eq!(dst_format, PixelFormat::Yuv420p);
            assert_eq!((width, height), (4, 2));
            pts
        }
        _ => panic!("expected a conversion"),
    };
    assert!(matches!(e.step(EncodeEvent::ScaleSucceeded), EncodeAction::SubmitFrame));
    assert!(matches!(e.step(EncodeEvent::Submitted), EncodeAction::ReceivePacket));
    for &has_data in packets {
        match e.step(EncodeEvent::PacketReceived { has_data }) {
            EncodeAction::ForwardPacket { stream_index, forward_data } => {
                assert_eq!(stream_index, 0);
                assert_eq!(forward_data, has_data);
            }
            _ => panic!("expected the packet to be forwarded"),
        }
    }
    assert!(matches!(e.step(EncodeEvent::NoMorePackets), EncodeAction::AwaitFrame));
    pts
}

#[test]
fn encoded_frames_get_consecutive_pts() {
    let mut e = VideoEncoder::new(4, 2, 11);
    assert_eq!(encode_one(&mut e, &[true]), 0);
    assert_eq!(encode_one(&mut e, &[true, false, true]), 1);
    assert_eq!(encode_one(&mut e, &[]), 2);
    assert_eq!(e.frame_count(), 3);
}

#[test]
fn failed_conversion_keeps_frame_count() {
    let mut e = VideoEncoder::new(4, 2, 11);
    assert_eq!(encode_one(&mut e, &[true]), 0);
    let ev = EncodeEvent::FrameReceived { format: 11, width: 4, height: 2 };
    assert!(e.accepts(&ev));
    assert!(matches!(e.step(ev), EncodeAction::Convert { pts: 1, .. }));
    assert!(matches!(e.step(EncodeEvent::ScaleFailed), EncodeAction::SkipFrame));
    assert_eq!(e.frame_count(), 1);
    assert_eq!(e.phase(), EncodePhase::AwaitingFrame);
    assert_eq!(encode_one(&mut e, &[true]), 1);
}

#[test]
fn closing_channel_flushes_and_finishes() {
    let mut e = VideoEncoder::new(4, 2, 2);
    assert!(matches!(e.step(EncodeEvent::ChannelClosed), EncodeAction::SubmitEof));
    assert!(matches!(e.step(EncodeEvent::Submitted), EncodeAction::ReceivePacket));
    assert!(matches!(
        e.step(EncodeEvent::PacketReceived { has_data: true }),
        EncodeAction::DiscardPacket
    ));
    assert!(matches!(e.step(EncodeEvent::NoMorePackets), EncodeAction::Finish));
    assert_eq!(e.phase(), EncodePhase::Finished);
    assert!(!e.accepts(&EncodeEvent::ChannelClosed));
    assert!(!e.accepts(&EncodeEvent::FrameReceived { format: 2, width: 1, height: 1 }));
}

#[test]
fn rejected_submission_fails_the_loop() {
    let mut e = VideoEncoder::new(4, 2, 4);
    assert!(matches!(
        e.step(EncodeEvent::FrameReceived { format: 4, width: 4, height: 2 }),
        EncodeAction::Convert { src_format: PixelFormat::Yuyv422, pts: 0, .. }
    ));
    assert!(matches!(e.step(EncodeEvent::ScaleSucceeded), EncodeAction::SubmitFrame));
    assert!(matches!(e.step(EncodeEvent::SubmitFailed), EncodeAction::Fail));
    assert_eq!(e.phase(), EncodePhase::Failed);
    assert_eq!(e.frame_count(), 0);
    assert!(!e.accepts(&EncodeEvent::NoMorePackets));
}

#[test]
fn frames_in_unknown_formats_are_not_accepted() {
    let e = VideoEncoder::new(4, 2, 8);
    assert!(!e.accepts(&EncodeEvent::FrameReceived { format: 3, width: 4, height: 2 }));
    assert!(!e.accepts(&EncodeEvent::ScaleSucceeded));
    assert!(e.accepts(&EncodeEvent::ChannelClosed));
}
