use svt::av1::{
    Av1EncoderConfig, Av1Packet, ChromaSamplePosition, ColorRange, Colorspace, CpuFlags,
    FrameType, IntraPeriod, IntraRefreshType, PredictionStructure, RateControlMode, RecodeLevel,
    SwitchFrameInsertion, TargetSocket, TilingMode, Tune,
};
use svt::av1::{
    requested_picture_type, EB_AV1_ALT_REF_PICTURE, EB_AV1_INTER_PICTURE,
    EB_AV1_INTRA_ONLY_PICTURE, EB_AV1_INVALID_PICTURE, EB_AV1_KEY_PICTURE,
    EB_AV1_NON_REF_PICTURE, EB_BUFFERFLAG_EOS, EB_ERROR_BAD_PARAMETER,
    EB_ERROR_INSUFFICIENT_RESOURCES, EB_ERROR_NONE, EB_NO_ERROR_EMPTY_QUEUE,
};
use svt::{Encoder, Error, Packet, SubsamplingFormat, YUVBuffer};

#[test]
fn av1_encode_frame() {
    let mut enc = Av1EncoderConfig::default()
        .preset(7)
        .create_encoder(800, 600, SubsamplingFormat::Yuv420, EB_ERROR_NONE)
        .expect("failed to create encoder");

    let buf = YUVBuffer::new(800, 600, SubsamplingFormat::Yuv420);

    enc.send_picture(&buf, 0, false, EB_ERROR_NONE)
        .expect("failed to send picture");

    let _packet = enc
        .get_packet(false, EB_NO_ERROR_EMPTY_QUEUE, None)
        .expect("failed to get packet");

    enc.finish(EB_ERROR_NONE).expect("failed to finish");

    let _packet = enc
        .get_packet(
            true,
            EB_ERROR_NONE,
            Some(Av1Packet::new(
                vec![0x12, 0x00],
                EB_AV1_KEY_PICTURE,
                EB_BUFFERFLAG_EOS,
            )),
        )
        .expect("failed to get final packet");
}

#[test]
fn av1_create_encoder_error() {
    let _enc = Av1EncoderConfig::default()
        .preset(99)
        .create_encoder(800, 600, SubsamplingFormat::Yuv420, EB_ERROR_NONE)
        .map(|_| ())
        .expect_err("EB_BadParameter");
}

#[test]
fn av1_create_encoder_error_is_bad_parameter() {
    let e = Av1EncoderConfig::default()
        .preset(99)
        .create_encoder(800, 600, SubsamplingFormat::Yuv420, EB_ERROR_NONE)
        .map(|_| ())
        .unwrap_err();
    assert!(matches!(e, Error::BadParameter));

    let e = Av1EncoderConfig::default()
        .preset(-1)
        .create_encoder(800, 600, SubsamplingFormat::Yuv420, EB_ERROR_NONE)
        .map(|_| ())
        .unwrap_err();
    assert!(matches!(e, Error::BadParameter));
}

#[test]
fn av1_create_encoder_classifies_the_engine_verdict() {
    // With an in-range preset, the engine's verdict on the two-step commit
    // decides, classified through the taxonomy.
    let e = Av1EncoderConfig::default()
        .preset(7)
        .create_encoder(
            800,
            600,
            SubsamplingFormat::Yuv420,
            EB_ERROR_INSUFFICIENT_RESOURCES,
        )
        .map(|_| ())
        .unwrap_err();
    assert!(matches!(e, Error::InsufficientResources));
}

#[test]
fn av1_committed_parameters_stage_geometry_and_format() {
    let c = Av1EncoderConfig::default().preset(5);
    let committed = c.committed_parameters(800, 600, SubsamplingFormat::Yuv422);
    assert_eq!(committed.source_width, 800);
    assert_eq!(committed.source_height, 600);
    assert_eq!(committed.encoder_color_format, 2);
    assert_eq!(committed.enc_mode, 5);

    let committed = c.committed_parameters(64, 32, SubsamplingFormat::Yuv400);
    assert_eq!(committed.encoder_color_format, 0);
}

#[test]
fn av1_picture_input_record() {
    let enc = Av1EncoderConfig::default()
        .create_encoder(800, 600, SubsamplingFormat::Yuv420, EB_ERROR_NONE)
        .expect("failed to create encoder");
    let buf = YUVBuffer::new(800, 600, SubsamplingFormat::Yuv420);

    let input = enc.picture_input(&buf, 42, false);
    assert_eq!(input.n_filled_len, 480000 + 120000 + 120000);
    assert_eq!(input.pts, 42);
    assert_eq!(input.pic_type, EB_AV1_INVALID_PICTURE);
    assert_eq!(input.flags, 0);

    let input = enc.picture_input(&buf, -1, true);
    assert_eq!(input.pts, -1);
    assert_eq!(input.pic_type, EB_AV1_KEY_PICTURE);
}

#[test]
fn av1_flush_input_record() {
    let enc = Av1EncoderConfig::default()
        .create_encoder(800, 600, SubsamplingFormat::Yuv420, EB_ERROR_NONE)
        .expect("failed to create encoder");
    let flush = enc.flush_input();
    assert_eq!(flush.n_filled_len, 0);
    assert_eq!(flush.pts, 0);
    assert_eq!(flush.pic_type, 0);
    assert_eq!(flush.flags, EB_BUFFERFLAG_EOS);
}

#[test]
fn av1_send_picture_classifies_the_engine_verdict() {
    let enc = Av1EncoderConfig::default()
        .preset(7)
        .create_encoder(800, 600, SubsamplingFormat::Yuv420, EB_ERROR_NONE)
        .expect("failed to create encoder");
    let buf = YUVBuffer::new(800, 600, SubsamplingFormat::Yuv420);

    assert!(enc.send_picture(&buf, 0, false, EB_ERROR_NONE).is_ok());

    let e = enc
        .send_picture(&buf, 1, false, EB_ERROR_BAD_PARAMETER)
        .unwrap_err();
    assert!(matches!(e, Error::BadParameter));
}

#[test]
fn av1_data_packets_flow_through_polls() {
    let mut enc = Av1EncoderConfig::default()
        .create_encoder(800, 600, SubsamplingFormat::Yuv420, EB_ERROR_NONE)
        .expect("failed to create encoder");

    // A filled output buffer comes back from a non-blocking poll unchanged.
    let packet = enc
        .get_packet(
            false,
            EB_ERROR_NONE,
            Some(Av1Packet::new(vec![1, 2, 3], EB_AV1_KEY_PICTURE, 0)),
        )
        .expect("poll")
        .expect("the engine's packet must be handed out");
    assert_eq!(packet.as_bytes(), &[1, 2, 3]);
    assert_eq!(packet.frame_type(), FrameType::Key);
    assert!(!packet.is_eos());

    // An engine error on a poll is the classified error.
    let e = enc
        .get_packet(false, EB_ERROR_INSUFFICIENT_RESOURCES, None)
        .unwrap_err();
    assert!(matches!(e, Error::InsufficientResources));
}

#[test]
fn av1_eos_drain_yields_exactly_one_eos_packet() {
    let mut enc = Av1EncoderConfig::default()
        .preset(7)
        .create_encoder(800, 600, SubsamplingFormat::Yuv420, EB_ERROR_NONE)
        .expect("failed to create encoder");

    let buf = YUVBuffer::new(800, 600, SubsamplingFormat::Yuv420);
    enc.send_picture(&buf, 0, false, EB_ERROR_NONE).expect("send");
    enc.finish(EB_ERROR_NONE).expect("finish");

    // The drain hands out data packets until the engine's end-of-stream one.
    let packet = enc
        .get_packet(
            true,
            EB_ERROR_NONE,
            Some(Av1Packet::new(vec![9, 9], EB_AV1_INTER_PICTURE, 0)),
        )
        .expect("drain")
        .expect("a data packet");
    assert!(!packet.is_eos());

    let packet = enc
        .get_packet(
            true,
            EB_ERROR_NONE,
            Some(Av1Packet::new(vec![7], EB_AV1_KEY_PICTURE, EB_BUFFERFLAG_EOS)),
        )
        .expect("drain")
        .expect("the end-of-stream packet");
    assert!(packet.is_eos());

    // No packet comes after the one carrying the end-of-stream flag,
    // whatever the engine would answer.
    assert!(enc
        .get_packet(
            true,
            EB_ERROR_NONE,
            Some(Av1Packet::new(vec![5], EB_AV1_INTER_PICTURE, 0))
        )
        .expect("drain")
        .is_none());
    assert!(enc
        .get_packet(true, EB_NO_ERROR_EMPTY_QUEUE, None)
        .expect("drain")
        .is_none());
    assert!(enc
        .get_packet(false, EB_NO_ERROR_EMPTY_QUEUE, None)
        .expect("poll")
        .is_none());
}

#[test]
fn av1_nonblocking_poll_with_no_output_is_no_packet() {
    let mut enc = Av1EncoderConfig::default()
        .create_encoder(640, 480, SubsamplingFormat::Yuv420, EB_ERROR_NONE)
        .expect("failed to create encoder");

    // The empty-queue sentinel is an absent packet, not an error.
    let polled = enc
        .get_packet(false, EB_NO_ERROR_EMPTY_QUEUE, None)
        .expect("poll must not fail");
    assert!(polled.is_none());
}

#[test]
fn av1_frame_type_mapping() {
    // Each known native tag maps to its documented category.
    let cases: Vec<(u32, FrameType)> = vec![
        (EB_AV1_KEY_PICTURE, FrameType::Key),
        (EB_AV1_INTER_PICTURE, FrameType::Inter),
        (EB_AV1_NON_REF_PICTURE, FrameType::Inter),
        (EB_AV1_INTRA_ONLY_PICTURE, FrameType::IntraOnly),
        (EB_AV1_ALT_REF_PICTURE, FrameType::AltRef),
    ];
    for (tag, expected) in cases {
        let p = Av1Packet::new(Vec::new(), tag, 0);
        assert_eq!(p.frame_type(), expected);
    }

    // Every unrecognized tag maps to Unknown.
    for tag in [5u32, 6, 7, EB_AV1_INVALID_PICTURE, 1000] {
        let p = Av1Packet::new(Vec::new(), tag, 0);
        assert_eq!(p.frame_type(), FrameType::Unknown);
    }
}

#[test]
fn av1_packet_bytes_and_eos_flag() {
    let p = Av1Packet::new(vec![1, 2, 3], EB_AV1_KEY_PICTURE, EB_BUFFERFLAG_EOS);
    assert_eq!(p.as_bytes(), &[1, 2, 3]);
    assert!(p.is_eos());

    let p = Av1Packet::new(vec![4, 5], EB_AV1_INTER_PICTURE, 0);
    assert_eq!(p.as_bytes(), &[4, 5]);
    assert!(!p.is_eos());

    let headers = Av1Packet::new_headers(vec![9, 9, 9]);
    assert_eq!(headers.as_bytes(), &[9, 9, 9]);
    assert!(!headers.is_eos());
    assert_eq!(headers.frame_type(), FrameType::Unknown);
}

#[test]
fn av1_requested_picture_type() {
    assert_eq!(requested_picture_type(true), EB_AV1_KEY_PICTURE);
    assert_eq!(requested_picture_type(false), EB_AV1_INVALID_PICTURE);
}

#[test]
fn av1_generated_headers_follow_the_engine_verdict() {
    let enc = Av1EncoderConfig::default()
        .create_encoder(800, 600, SubsamplingFormat::Yuv420, EB_ERROR_NONE)
        .expect("failed to create encoder");

    let headers = enc
        .code_headers(EB_ERROR_NONE, vec![0x0a, 0x0b])
        .expect("header generation");
    assert_eq!(headers.as_bytes(), &[0x0a, 0x0b]);
    assert!(!headers.is_eos());

    let e = enc
        .code_headers(EB_ERROR_INSUFFICIENT_RESOURCES, Vec::new())
        .unwrap_err();
    assert!(matches!(e, Error::InsufficientResources));
}

#[test]
fn av1_default_parameters() {
    let c = Av1EncoderConfig::default();
    assert_eq!(c.cfg.enc_mode, 10);
    assert_eq!(c.cfg.intra_period_length, -2);
    assert_eq!(c.cfg.intra_refresh_type, 2);
    assert_eq!(c.cfg.encoder_bit_depth, 8);
    assert_eq!(c.cfg.rate_control_mode, 0);
    assert_eq!(c.cfg.target_socket, -1);
}

#[test]
fn av1_setters_stage_native_encodings() {
    let c = Av1EncoderConfig::default().preset(3);
    assert_eq!(c.cfg.enc_mode, 3);

    let c = Av1EncoderConfig::default().intra_period_length(IntraPeriod::Auto);
    assert_eq!(c.cfg.intra_period_length, -2);
    let c = Av1EncoderConfig::default().intra_period_length(IntraPeriod::Disabled);
    assert_eq!(c.cfg.intra_period_length, -1);
    let c = Av1EncoderConfig::default().intra_period_length(IntraPeriod::Fixed(30));
    assert_eq!(c.cfg.intra_period_length, 30);

    let c = Av1EncoderConfig::default().intra_refresh_type(IntraRefreshType::Open);
    assert_eq!(c.cfg.intra_refresh_type, 1);
    let c = Av1EncoderConfig::default().intra_refresh_type(IntraRefreshType::Closed);
    assert_eq!(c.cfg.intra_refresh_type, 2);

    let c = Av1EncoderConfig::default().pred_structure(PredictionStructure::LowDelay);
    assert_eq!(c.cfg.pred_structure, 1);
    let c = Av1EncoderConfig::default().pred_structure(PredictionStructure::RandomAccess);
    assert_eq!(c.cfg.pred_structure, 2);

    let c = Av1EncoderConfig::default().framerate(30000, 1001);
    assert_eq!(c.cfg.frame_rate_numerator, 30000);
    assert_eq!(c.cfg.frame_rate_denominator, 1001);

    let c = Av1EncoderConfig::default().tune(Tune::Ssim);
    assert_eq!(c.cfg.tune, 2);

    let c = Av1EncoderConfig::default().recode_level(RecodeLevel::EnableForKeyframes);
    assert_eq!(c.cfg.recode_loop, 2);

    let c = Av1EncoderConfig::default().cpu_flags(CpuFlags(0x103));
    assert_eq!(c.cfg.use_cpu_flags, 0x103);
    assert_eq!(CpuFlags(0x103).bits(), 0x103);
}

#[test]
fn av1_color_tagging_is_bit_exact() {
    let c = Av1EncoderConfig::default().color_space(Colorspace::Unspecified);
    assert_eq!(
        (
            c.cfg.color_primaries,
            c.cfg.transfer_characteristics,
            c.cfg.matrix_coefficients
        ),
        (2, 2, 2)
    );

    let c = Av1EncoderConfig::default().color_space(Colorspace::Bt709);
    assert_eq!(
        (
            c.cfg.color_primaries,
            c.cfg.transfer_characteristics,
            c.cfg.matrix_coefficients
        ),
        (1, 1, 1)
    );

    let c = Av1EncoderConfig::default().color_space(Colorspace::Bt2020);
    assert_eq!(
        (
            c.cfg.color_primaries,
            c.cfg.transfer_characteristics,
            c.cfg.matrix_coefficients
        ),
        (9, 14, 9)
    );

    let c = Av1EncoderConfig::default().color_space(Colorspace::Other {
        primaries: 4,
        transfer_characteristics: 5,
        matrix_coefficients: 6,
    });
    assert_eq!(
        (
            c.cfg.color_primaries,
            c.cfg.transfer_characteristics,
            c.cfg.matrix_coefficients
        ),
        (4, 5, 6)
    );

    let c = Av1EncoderConfig::default().color_range(ColorRange::Limited);
    assert_eq!(c.cfg.color_range, 1);
    let c = Av1EncoderConfig::default().color_range(ColorRange::Full);
    assert_eq!(c.cfg.color_range, 0);

    let c =
        Av1EncoderConfig::default().chroma_sample_position(ChromaSamplePosition::Colocated);
    assert_eq!(c.cfg.chroma_sample_position, 2);
    let c = Av1EncoderConfig::default().chroma_sample_position(ChromaSamplePosition::Vertical);
    assert_eq!(c.cfg.chroma_sample_position, 1);
    let c = Av1EncoderConfig::default().chroma_sample_position(ChromaSamplePosition::Unknown);
    assert_eq!(c.cfg.chroma_sample_position, 0);
}

#[test]
fn av1_rate_control_staging() {
    let c = Av1EncoderConfig::default().rate_control_mode(RateControlMode::ConstantQp(40));
    assert_eq!(c.cfg.rate_control_mode, 0);
    assert_eq!(c.cfg.enable_adaptive_quantization, 0);
    assert_eq!(c.cfg.qp, 40);

    let c =
        Av1EncoderConfig::default().rate_control_mode(RateControlMode::ConstantRateFactor(30));
    assert_eq!(c.cfg.rate_control_mode, 0);
    assert_eq!(c.cfg.enable_adaptive_quantization, 1);
    assert_eq!(c.cfg.qp, 30);

    let c =
        Av1EncoderConfig::default().rate_control_mode(RateControlMode::VariableBitrate(500000));
    assert_eq!(c.cfg.rate_control_mode, 1);
    assert_eq!(c.cfg.target_bit_rate, 500000);

    let c =
        Av1EncoderConfig::default().rate_control_mode(RateControlMode::ConstantBitrate(800000));
    assert_eq!(c.cfg.rate_control_mode, 2);
    assert_eq!(c.cfg.target_bit_rate, 800000);
}

#[test]
fn av1_tiling_and_switch_frames() {
    let c = Av1EncoderConfig::default().tiling_mode(TilingMode::Multi { columns: 2, rows: 3 });
    assert_eq!(c.cfg.tile_columns, 2);
    assert_eq!(c.cfg.tile_rows, 3);
    let c = c.tiling_mode(TilingMode::Single);
    assert_eq!(c.cfg.tile_columns, 0);
    assert_eq!(c.cfg.tile_rows, 0);

    let c = Av1EncoderConfig::default().target_socket(TargetSocket::Both);
    assert_eq!(c.cfg.target_socket, -1);
    let c = Av1EncoderConfig::default().target_socket(TargetSocket::First);
    assert_eq!(c.cfg.target_socket, 0);
    let c = Av1EncoderConfig::default().target_socket(TargetSocket::Second);
    assert_eq!(c.cfg.target_socket, 1);

    // The strict and nearest insertion modes stage the same native mode
    // code; only the interval distinguishes staged records.
    let strict = Av1EncoderConfig::default()
        .switch_frame_insertion(SwitchFrameInsertion::Strict(5));
    let nearest = Av1EncoderConfig::default()
        .switch_frame_insertion(SwitchFrameInsertion::Nearest(5));
    assert_eq!(strict.cfg.sframe_dist, 5);
    assert_eq!(nearest.cfg.sframe_dist, 5);
    assert_eq!(strict.cfg.sframe_mode, 2);
    assert_eq!(strict.cfg, nearest.cfg);

    let c = Av1EncoderConfig::default()
        .switch_frame_insertion(SwitchFrameInsertion::Disabled);
    assert_eq!(c.cfg.sframe_dist, 0);
}
