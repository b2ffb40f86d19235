use svt::hevc::{
    AsmType, BaseLayerSwitchMode, HevcEncoderConfig, HevcPacket, HevcProfile, HevcTier,
    IntraPeriod, IntraRefreshType, NaluType, PredictionStructure, RateControlMode, TargetSocket,
    TilingMode,
};
use svt::hevc::{
    EB_BUFFERFLAG_EOS, EB_B_PICTURE, EB_ERROR_NONE, EB_ERROR_UNDEFINED, EB_IDR_PICTURE,
    EB_INVALID_PICTURE, EB_I_PICTURE, EB_NO_ERROR_EMPTY_QUEUE, EB_P_PICTURE,
};
use svt::{Encoder, Error, Packet, SubsamplingFormat, YUVBuffer};

#[test]
fn hevc_encode_frame() {
    let mut enc = HevcEncoderConfig::default()
        .preset(7)
        .create_encoder(800, 600, SubsamplingFormat::Yuv420, EB_ERROR_NONE)
        .expect("failed to create encoder");

    let buf = YUVBuffer::new(800, 600, SubsamplingFormat::Yuv420);

    enc.send_picture(&buf, 0, false, EB_ERROR_NONE)
        .expect("failed to send picture");

    let _packet = enc
        .get_packet(false, EB_NO_ERROR_EMPTY_QUEUE, None)
        .expect("failed to get packet");

    enc.finish(EB_ERROR_NONE).expect("failed to finish");

    let _packet = enc
        .get_packet(
            true,
            EB_ERROR_NONE,
            Some(HevcPacket::new(
                vec![0x44],
                EB_IDR_PICTURE,
                EB_BUFFERFLAG_EOS,
            )),
        )
        .expect("failed to get final packet");
}

#[test]
fn hevc_create_encoder_error() {
    let _enc = HevcEncoderConfig::default()
        .preset(99)
        .create_encoder(800, 600, SubsamplingFormat::Yuv420, EB_ERROR_NONE)
        .map(|_| ())
        .expect_err("EB_BadParameter");
}

#[test]
fn hevc_create_encoder_error_is_bad_parameter() {
    let e = HevcEncoderConfig::default()
        .preset(99)
        .create_encoder(800, 600, SubsamplingFormat::Yuv420, EB_ERROR_NONE)
        .map(|_| ())
        .unwrap_err();
    assert!(matches!(e, Error::BadParameter));
}

#[test]
fn hevc_create_encoder_classifies_the_engine_verdict() {
    let e = HevcEncoderConfig::default()
        .preset(7)
        .create_encoder(800, 600, SubsamplingFormat::Yuv420, EB_ERROR_UNDEFINED)
        .map(|_| ())
        .unwrap_err();
    assert!(matches!(e, Error::Undefined));
}

#[test]
fn hevc_committed_parameters_stage_geometry_and_format() {
    let c = HevcEncoderConfig::default().preset(4);
    let committed = c.committed_parameters(800, 600, SubsamplingFormat::Yuv444);
    assert_eq!(committed.source_width, 800);
    assert_eq!(committed.source_height, 600);
    assert_eq!(committed.encoder_color_format, 3);
    assert_eq!(committed.enc_mode, 4);
}

#[test]
fn hevc_picture_input_record() {
    let enc = HevcEncoderConfig::default()
        .create_encoder(800, 600, SubsamplingFormat::Yuv420, EB_ERROR_NONE)
        .expect("failed to create encoder");
    let buf = YUVBuffer::new(800, 600, SubsamplingFormat::Yuv420);

    let input = enc.picture_input(&buf, 42, false);
    assert_eq!(input.n_filled_len, 480000 + 120000 + 120000);
    assert_eq!(input.pts, 42);
    assert_eq!(input.slice_type, EB_INVALID_PICTURE);
    assert_eq!(input.flags, 0);

    // Under the default open-GOP policy a forced keyframe requests an I
    // picture; a closed-GOP policy turns it into an IDR request.
    let input = enc.picture_input(&buf, 0, true);
    assert_eq!(input.slice_type, EB_I_PICTURE);

    let enc = HevcEncoderConfig::default()
        .intra_refresh_type(IntraRefreshType::Closed(30))
        .create_encoder(800, 600, SubsamplingFormat::Yuv420, EB_ERROR_NONE)
        .expect("failed to create encoder");
    let input = enc.picture_input(&buf, 0, true);
    assert_eq!(input.slice_type, EB_IDR_PICTURE);
}

#[test]
fn hevc_flush_input_record() {
    let enc = HevcEncoderConfig::default()
        .create_encoder(800, 600, SubsamplingFormat::Yuv420, EB_ERROR_NONE)
        .expect("failed to create encoder");
    let flush = enc.flush_input();
    assert_eq!(flush.n_filled_len, 0);
    assert_eq!(flush.pts, 0);
    assert_eq!(flush.slice_type, 0);
    assert_eq!(flush.flags, EB_BUFFERFLAG_EOS);
}

#[test]
fn hevc_send_picture_classifies_the_engine_verdict() {
    let enc = HevcEncoderConfig::default()
        .preset(7)
        .create_encoder(800, 600, SubsamplingFormat::Yuv420, EB_ERROR_NONE)
        .expect("failed to create encoder");
    let buf = YUVBuffer::new(800, 600, SubsamplingFormat::Yuv420);

    assert!(enc.send_picture(&buf, 0, false, EB_ERROR_NONE).is_ok());

    let e = enc
        .send_picture(&buf, 1, false, EB_ERROR_UNDEFINED)
        .unwrap_err();
    assert!(matches!(e, Error::Undefined));
}

#[test]
fn hevc_eos_drain_yields_exactly_one_eos_packet() {
    let mut enc = HevcEncoderConfig::default()
        .preset(7)
        .create_encoder(800, 600, SubsamplingFormat::Yuv420, EB_ERROR_NONE)
        .expect("failed to create encoder");

    let buf = YUVBuffer::new(800, 600, SubsamplingFormat::Yuv420);
    enc.send_picture(&buf, 0, false, EB_ERROR_NONE).expect("send");
    enc.finish(EB_ERROR_NONE).expect("finish");

    // The drain hands out data packets until the engine's end-of-stream one.
    let packet = enc
        .get_packet(
            true,
            EB_ERROR_NONE,
            Some(HevcPacket::new(vec![3, 4], EB_B_PICTURE, 0)),
        )
        .expect("drain")
        .expect("a data packet");
    assert!(!packet.is_eos());

    let packet = enc
        .get_packet(
            true,
            EB_ERROR_NONE,
            Some(HevcPacket::new(vec![5], EB_IDR_PICTURE, EB_BUFFERFLAG_EOS)),
        )
        .expect("drain")
        .expect("the end-of-stream packet");
    assert!(packet.is_eos());

    // No packet comes after the one carrying the end-of-stream flag.
    assert!(enc
        .get_packet(true, EB_NO_ERROR_EMPTY_QUEUE, None)
        .expect("drain")
        .is_none());
    assert!(enc
        .get_packet(false, EB_NO_ERROR_EMPTY_QUEUE, None)
        .expect("poll")
        .is_none());
}

#[test]
fn hevc_nonblocking_poll_with_no_output_is_no_packet() {
    let mut enc = HevcEncoderConfig::default()
        .create_encoder(640, 480, SubsamplingFormat::Yuv422, EB_ERROR_NONE)
        .expect("failed to create encoder");

    let polled = enc
        .get_packet(false, EB_NO_ERROR_EMPTY_QUEUE, None)
        .expect("poll must not fail");
    assert!(polled.is_none());
}

#[test]
fn hevc_nalu_type_mapping() {
    let cases: Vec<(u32, NaluType)> = vec![
        (EB_B_PICTURE, NaluType::B),
        (EB_P_PICTURE, NaluType::P),
        (EB_I_PICTURE, NaluType::I),
        (EB_IDR_PICTURE, NaluType::IDR),
    ];
    for (tag, expected) in cases {
        let p = HevcPacket::new(Vec::new(), tag, 0);
        assert_eq!(p.nalu_type(), expected);
    }

    for tag in [4u32, 5, EB_INVALID_PICTURE, 700] {
        let p = HevcPacket::new(Vec::new(), tag, 0);
        assert_eq!(p.nalu_type(), NaluType::Unknown);
    }
}

#[test]
fn hevc_packet_bytes_and_eos_flag() {
    let p = HevcPacket::new(vec![7, 8], EB_IDR_PICTURE, EB_BUFFERFLAG_EOS);
    assert_eq!(p.as_bytes(), &[7, 8]);
    assert!(p.is_eos());

    let headers = HevcPacket::new_headers(vec![1]);
    assert_eq!(headers.as_bytes(), &[1]);
    assert!(!headers.is_eos());

    let eos = HevcPacket::new_eos(Vec::new());
    assert!(eos.is_eos());
    assert_eq!(eos.as_bytes().len(), 0);
}

#[test]
fn hevc_keyframe_request_follows_intra_refresh_policy() {
    // The default configuration stages the open-GOP sentinel, so a forced
    // keyframe requests an I picture.
    let enc = HevcEncoderConfig::default()
        .create_encoder(800, 600, SubsamplingFormat::Yuv420, EB_ERROR_NONE)
        .expect("failed to create encoder");
    assert_eq!(enc.requested_slice_type(true), EB_I_PICTURE);
    assert_eq!(enc.requested_slice_type(false), EB_INVALID_PICTURE);

    // A closed-GOP policy turns the request into an IDR picture.
    let enc = HevcEncoderConfig::default()
        .intra_refresh_type(IntraRefreshType::Closed(30))
        .create_encoder(800, 600, SubsamplingFormat::Yuv420, EB_ERROR_NONE)
        .expect("failed to create encoder");
    assert_eq!(enc.requested_slice_type(true), EB_IDR_PICTURE);
    assert_eq!(enc.requested_slice_type(false), EB_INVALID_PICTURE);
}

#[test]
fn hevc_generated_headers_and_eos_nal() {
    let enc = HevcEncoderConfig::default()
        .create_encoder(800, 600, SubsamplingFormat::Yuv420, EB_ERROR_NONE)
        .expect("failed to create encoder");

    let headers = enc
        .code_headers(EB_ERROR_NONE, vec![0x40, 0x01])
        .expect("header generation");
    assert_eq!(headers.as_bytes(), &[0x40, 0x01]);
    assert!(!headers.is_eos());

    let eos = enc
        .code_eos(EB_ERROR_NONE, vec![0x4a])
        .expect("EOS generation");
    assert_eq!(eos.as_bytes(), &[0x4a]);
    assert!(eos.is_eos());

    let e = enc.code_eos(EB_ERROR_UNDEFINED, Vec::new()).unwrap_err();
    assert!(matches!(e, Error::Undefined));
}

#[test]
fn hevc_default_parameters() {
    let c = HevcEncoderConfig::default();
    assert_eq!(c.cfg.enc_mode, 7);
    assert_eq!(c.cfg.intra_period_length, -2);
    assert_eq!(c.cfg.intra_refresh_type, -1);
    assert_eq!(c.cfg.encoder_bit_depth, 8);
    assert_eq!(c.cfg.rate_control_mode, 0);
    assert_eq!(c.cfg.target_socket, -1);
    assert_eq!(c.cfg.asm_type, 1);
}

#[test]
fn hevc_setters_stage_native_encodings() {
    let c = HevcEncoderConfig::default().preset(3);
    assert_eq!(c.cfg.enc_mode, 3);

    let c = HevcEncoderConfig::default().intra_period_length(IntraPeriod::Auto);
    assert_eq!(c.cfg.intra_period_length, -2);
    let c = HevcEncoderConfig::default().intra_period_length(IntraPeriod::Disabled);
    assert_eq!(c.cfg.intra_period_length, -1);
    let c = HevcEncoderConfig::default().intra_period_length(IntraPeriod::Fixed(25));
    assert_eq!(c.cfg.intra_period_length, 25);

    let c = HevcEncoderConfig::default().intra_refresh_type(IntraRefreshType::Open);
    assert_eq!(c.cfg.intra_refresh_type, -1);
    let c = HevcEncoderConfig::default().intra_refresh_type(IntraRefreshType::Closed(16));
    assert_eq!(c.cfg.intra_refresh_type, 16);

    let c = HevcEncoderConfig::default().pred_structure(PredictionStructure::LowDelayP);
    assert_eq!(c.cfg.pred_structure, 0);
    let c = HevcEncoderConfig::default().pred_structure(PredictionStructure::LowDelayB);
    assert_eq!(c.cfg.pred_structure, 1);
    let c = HevcEncoderConfig::default().pred_structure(PredictionStructure::RandomAccess);
    assert_eq!(c.cfg.pred_structure, 2);

    let c = HevcEncoderConfig::default().base_layer_switch_mode(BaseLayerSwitchMode::B);
    assert_eq!(c.cfg.base_layer_switch_mode, 0);
    let c = HevcEncoderConfig::default().base_layer_switch_mode(BaseLayerSwitchMode::P);
    assert_eq!(c.cfg.base_layer_switch_mode, 1);

    let c = HevcEncoderConfig::default().framerate(30000, 1001);
    assert_eq!(c.cfg.frame_rate_numerator, 30000);
    assert_eq!(c.cfg.frame_rate_denominator, 1001);

    let c = HevcEncoderConfig::default().rate_control_mode(RateControlMode::VariableBitrate);
    assert_eq!(c.cfg.rate_control_mode, 1);

    let c = HevcEncoderConfig::default().qp(27).target_bitrate(900000);
    assert_eq!(c.cfg.qp, 27);
    assert_eq!(c.cfg.target_bit_rate, 900000);

    let c = HevcEncoderConfig::default().profile(HevcProfile::Main10);
    assert_eq!(c.cfg.profile, 1);
    let c = HevcEncoderConfig::default().tier(HevcTier::High);
    assert_eq!(c.cfg.tier, 1);

    let c = HevcEncoderConfig::default().asm_type(AsmType::Disabled);
    assert_eq!(c.cfg.asm_type, 0);
    let c = HevcEncoderConfig::default().asm_type(AsmType::Auto);
    assert_eq!(c.cfg.asm_type, 1);

    let c = HevcEncoderConfig::default().target_socket(TargetSocket::Both);
    assert_eq!(c.cfg.target_socket, -1);

    let c = HevcEncoderConfig::default().injector_framerate(60);
    assert_eq!(c.cfg.injector_frame_rate, 60);

    let c = HevcEncoderConfig::default()
        .vbv_max_rate(100)
        .vbv_buf_size(200)
        .vbv_buf_init(300);
    assert_eq!(c.cfg.vbv_max_rate, 100);
    assert_eq!(c.cfg.vbv_buf_size, 200);
    assert_eq!(c.cfg.vbv_buf_init, 300);
}

#[test]
fn hevc_tiling_staging() {
    let c = HevcEncoderConfig::default().tiling(TilingMode::Multi { columns: 4, rows: 2 });
    assert_eq!(c.cfg.tile_column_count, 4);
    assert_eq!(c.cfg.tile_row_count, 2);
    assert_eq!(c.cfg.tile_slice_mode, 1);

    let c = c.tiling(TilingMode::Single);
    assert_eq!(c.cfg.tile_slice_mode, 0);
}

#[test]
fn hevc_boolean_toggles_stage_native_flags() {
    let c = HevcEncoderConfig::default()
        .disable_dlf(true)
        .enable_sao(true)
        .use_default_me_hme(false)
        .enable_hme(true)
        .enable_constrained_intra(true)
        .code_vps_sps_pps(true)
        .code_eos(true)
        .code_vui(true)
        .hdr_input(true)
        .enable_teporal_id(true)
        .enable_hrd(true)
        .switch_threads_to_rt(true)
        .enable_speed_control(true)
        .unrestricted_motion_vector(true);
    assert_eq!(c.cfg.disable_dlf_flag, 1);
    assert_eq!(c.cfg.enable_sao_flag, 1);
    assert_eq!(c.cfg.use_default_me_hme, 0);
    assert_eq!(c.cfg.enable_hme_flag, 1);
    assert_eq!(c.cfg.constrained_intra, 1);
    assert_eq!(c.cfg.code_vps_sps_pps, 1);
    assert_eq!(c.cfg.code_eos_nal, 1);
    assert_eq!(c.cfg.video_usability_info, 1);
    assert_eq!(c.cfg.high_dynamic_range_input, 1);
    assert_eq!(c.cfg.enable_temporal_id, 1);
    assert_eq!(c.cfg.hrd_flag, 1);
    assert_eq!(c.cfg.switch_threads_to_rt_priority, 1);
    assert_eq!(c.cfg.speed_control_flag, 1);
    assert_eq!(c.cfg.unrestricted_motion_vector, 1);
}
