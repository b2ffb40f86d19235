//! Staged HEVC encoder configuration.
//!
//! The builder stages a value record mirroring the engine's native
//! configuration structure.  Setters never fail and never touch the engine:
//! each one maps a domain-level option to its native field encoding and
//! stores it.  Committing the record with
//! [`HevcEncoderConfig::create_encoder`] writes the frame geometry and
//! subsampling format, validates the staged parameters, and yields a live
//! [`HevcEncoder`] session; the record is immutable from then on.

use vstd::prelude::*;

use crate::error::{classified, result, EB_ERROR_NONE};
use crate::hevc::{HevcEncoder, LibraryHandle};
use crate::{Encoder, Error, SubsamplingFormat};

verus! {

/// How often (in frames) to insert an intra refresh.
#[derive(Debug, Copy, Clone, PartialEq, Eq, Structural)]
pub enum IntraPeriod {
    /// Automatically determine the intra period.
    Auto,
    /// Do not insert intra refresh.
    Disabled,
    /// Use a fixed intra period.
    Fixed(u32),
}

/// The type of intra refresh to use.
#[derive(Debug, Copy, Clone, PartialEq, Eq, Structural)]
pub enum IntraRefreshType {
    /// Open, using CRA points for random access.
    Open,
    /// Closed, using IDR frames and a fixed GOP size.
    Closed(i32),
}

/// The prediction structure for each GOP.
#[derive(Debug, Copy, Clone, PartialEq, Eq, Structural)]
pub enum PredictionStructure {
    /// Forward prediction only, using P frames.
    LowDelayP,
    /// Forward prediction only, using B frames.
    LowDelayB,
    /// Bidirectional prediction.
    RandomAccess,
}

/// When using [`PredictionStructure::RandomAccess`], the frame type to use
/// in the base layer.
#[derive(Debug, Copy, Clone, PartialEq, Eq, Structural)]
pub enum BaseLayerSwitchMode {
    /// Use B frames.
    B,
    /// Use P frames.
    P,
}

/// The tiling mode to use.
#[derive(Debug, Copy, Clone, PartialEq, Eq, Structural)]
pub enum TilingMode {
    /// Use a single tile.
    Single,
    /// Use multiple tiles.
    Multi {
        /// The number of columns.
        columns: u8,
        /// The number of rows.
        rows: u8,
    },
}

/// The rate control mode to use.
#[derive(Debug, Copy, Clone, PartialEq, Eq, Structural)]
pub enum RateControlMode {
    /// Use a constant quantization parameter.
    ConstantQp,
    /// Use variable bitrate.
    VariableBitrate,
}

/// Whether to use ASM optimizations.
#[derive(Debug, Copy, Clone, PartialEq, Eq, Structural)]
pub enum AsmType {
    /// Do not use ASM optimizations.
    Disabled,
    /// Auto-select the highest assembly instruction set supported.
    Auto,
}

/// The HEVC profile.
#[derive(Debug, Copy, Clone, PartialEq, Eq, Structural)]
pub enum HevcProfile {
    /// Main profile.
    Main,
    /// Main 10 profile.
    Main10,
}

/// Hevc decoder tier.
#[derive(Debug, Copy, Clone, PartialEq, Eq, Structural)]
pub enum HevcTier {
    /// Main, for most applications.
    Main,
    /// High, for demanding applications.
    High,
}

/// Which socket(s) to use for encoding, on dual-socket systems.
#[derive(Debug, Copy, Clone, PartialEq, Eq, Structural)]
pub enum TargetSocket {
    /// Use the first socket.
    First,
    /// Use the second socket.
    Second,
    /// Use both sockets.
    Both,
}

/// The value record mirroring the engine's native HEVC configuration
/// structure.  Each field holds the native encoding of one tunable; fields
/// are only meaningful in combination (bitrate fields are honored only in
/// bitrate-based rate control, QP fields only in QP-based rate control, and
/// staging a field for an inapplicable mode is legal and ignored by the
/// engine).
#[derive(Debug, Copy, Clone, PartialEq, Eq, Structural)]
pub struct HevcParameters {
    /// The preset (`encMode`), trading quality for density.
    pub enc_mode: u8,
    /// The intra refresh period in frames; `-2` is auto, `-1` is none.
    pub intra_period_length: i32,
    /// The intra refresh type: `-1` is the open-GOP sentinel (CRA), and any
    /// other staged value is a closed-GOP size (IDR).
    pub intra_refresh_type: i32,
    /// The number of hierarchical layers in each GOP.
    pub hierarchical_levels: u32,
    /// The GOP prediction structure: `0` low delay P, `1` low delay B, `2` random access.
    pub pred_structure: u8,
    /// The base layer frame type in random access mode: `0` B frames, `1` P frames.
    pub base_layer_switch_mode: u8,
    /// The input framerate numerator.
    pub frame_rate_numerator: i32,
    /// The input framerate denominator.
    pub frame_rate_denominator: i32,
    /// The input bit depth (8 or 10).
    pub encoder_bit_depth: u32,
    /// Whether the packed 10-bit input format is expected.
    pub compressed_ten_bit_format: u32,
    /// Whether automatic subjective bitrate reduction is enabled.
    pub bit_rate_reduction: u8,
    /// Whether the automatic sharpness-improvement algorithm is enabled.
    pub improve_sharpness: u8,
    /// Whether SEI messages with interlaced signaling are enabled.
    pub interlaced_video: u8,
    /// The quantization parameter for QP-based rate control.
    pub qp: u32,
    /// Whether multi-tile mode is enabled.
    pub tile_slice_mode: u8,
    /// The number of tile columns in multi-tile mode.
    pub tile_column_count: u8,
    /// The number of tile rows in multi-tile mode.
    pub tile_row_count: u8,
    /// Whether deblocking loop filtering is disabled.
    pub disable_dlf_flag: u8,
    /// Whether sample adaptive offset filtering is enabled.
    pub enable_sao_flag: u8,
    /// Whether the default motion estimation parameters are used.
    pub use_default_me_hme: u8,
    /// Whether hierarchical motion estimation is enabled.
    pub enable_hme_flag: u8,
    /// The motion estimation search area width.
    pub search_area_width: u32,
    /// The motion estimation search area height.
    pub search_area_height: u32,
    /// Whether constrained intra prediction is enabled.
    pub constrained_intra: u8,
    /// The rate control mode: `0` constant QP, `1` variable bitrate.
    pub rate_control_mode: u32,
    /// Whether scene change detection is enabled.
    pub scene_change_detection: u32,
    /// The look-ahead distance.
    pub look_ahead_distance: u32,
    /// The target bitrate in bits per second, for variable bitrate.
    pub target_bit_rate: u32,
    /// The maximum allowed QP in variable bitrate mode.
    pub max_qp_allowed: u32,
    /// The minimum allowed QP in variable bitrate mode.
    pub min_qp_allowed: u32,
    /// Whether VPS, SPS, and PPS NAL units are generated.
    pub code_vps_sps_pps: u8,
    /// Whether EOS NAL units are generated.
    pub code_eos_nal: u8,
    /// Whether VUI NAL units are generated.
    pub video_usability_info: u32,
    /// Whether BT2020 high-dynamic-range input is expected.
    pub high_dynamic_range_input: u32,
    /// Whether access unit delimiters are generated.
    pub access_unit_delimiter: u32,
    /// Whether buffering period SEI NAL units are generated.
    pub buffering_period_sei: u32,
    /// Whether picture timing SEI NAL units are generated.
    pub picture_timing_sei: u32,
    /// Whether registered user data SEI NAL units are generated.
    pub registered_user_data_sei_flag: u32,
    /// Whether unregistered user data SEI NAL units are generated.
    pub unregistered_user_data_sei_flag: u32,
    /// Whether recovery point SEI NAL units are generated.
    pub recovery_point_sei_flag: u32,
    /// Whether temporal IDs are inserted in NAL units.
    pub enable_temporal_id: u32,
    /// The HEVC profile code: `0` main, `1` main 10.
    pub profile: u32,
    /// The HEVC tier code: `0` main, `1` high.
    pub tier: u32,
    /// The IDC level multiplied by ten, or `0` for auto-detection.
    pub level: u32,
    /// Whether VPS timing info is enabled.
    pub fps_in_vps: u8,
    /// The VBV maximum rate in bits per second, for variable bitrate.
    pub vbv_max_rate: u32,
    /// The VBV buffer size in bits, for variable bitrate.
    pub vbv_buf_size: u32,
    /// The initial VBV buffer fullness, for variable bitrate.
    pub vbv_buf_init: u64,
    /// Whether the hypothetical reference decoder flag is set.
    pub hrd_flag: u32,
    /// The channel ID, if multiple channels are used.
    pub channel_id: u32,
    /// The number of active channels.
    pub active_channel_count: u32,
    /// The number of logical processors to use.
    pub logical_processors: u32,
    /// The first logical processor to use.
    pub first_logical_processor: u32,
    /// The target socket: `-1` both, `0` first, `1` second.
    pub target_socket: i32,
    /// Whether real-time priority is requested for encoding threads.
    pub switch_threads_to_rt_priority: u8,
    /// The number of worker threads to create.
    pub thread_count: u32,
    /// The assembly optimization selection: `0` none, `1` auto.
    pub asm_type: u32,
    /// Whether dynamic preset adjustment to match the framerate is enabled.
    pub speed_control_flag: u32,
    /// The rate at which input frames are injected.
    pub injector_frame_rate: i32,
    /// Whether motion vectors may point outside the frame.
    pub unrestricted_motion_vector: u8,
    /// The source picture width in pixels, written at commit.
    pub source_width: u32,
    /// The source picture height in pixels, written at commit.
    pub source_height: u32,
    /// The native subsampling format code, written at commit.
    pub encoder_color_format: u32,
}

/// The initial staged record: the engine's documented defaults where its
/// interface states them (a preset of 7, an automatic intra period, the
/// open-GOP intra refresh sentinel, eight-bit input, automatic assembly
/// selection, both sockets), and zero for the remaining pass-through
/// tunables.
pub open spec fn initial_hevc_parameters() -> HevcParameters {
    HevcParameters {
        enc_mode: 7,
        intra_period_length: -2i32,
        intra_refresh_type: -1i32,
        hierarchical_levels: 0,
        pred_structure: 0,
        base_layer_switch_mode: 0,
        frame_rate_numerator: 0,
        frame_rate_denominator: 0,
        encoder_bit_depth: 8,
        compressed_ten_bit_format: 0,
        bit_rate_reduction: 0,
        improve_sharpness: 0,
        interlaced_video: 0,
        qp: 0,
        tile_slice_mode: 0,
        tile_column_count: 0,
        tile_row_count: 0,
        disable_dlf_flag: 0,
        enable_sao_flag: 0,
        use_default_me_hme: 0,
        enable_hme_flag: 0,
        search_area_width: 0,
        search_area_height: 0,
        constrained_intra: 0,
        rate_control_mode: 0,
        scene_change_detection: 0,
        look_ahead_distance: 0,
        target_bit_rate: 0,
        max_qp_allowed: 0,
        min_qp_allowed: 0,
        code_vps_sps_pps: 0,
        code_eos_nal: 0,
        video_usability_info: 0,
        high_dynamic_range_input: 0,
        access_unit_delimiter: 0,
        buffering_period_sei: 0,
        picture_timing_sei: 0,
        registered_user_data_sei_flag: 0,
        unregistered_user_data_sei_flag: 0,
        recovery_point_sei_flag: 0,
        enable_temporal_id: 0,
        profile: 0,
        tier: 0,
        level: 0,
        fps_in_vps: 0,
        vbv_max_rate: 0,
        vbv_buf_size: 0,
        vbv_buf_init: 0,
        hrd_flag: 0,
        channel_id: 0,
        active_channel_count: 0,
        logical_processors: 0,
        first_logical_processor: 0,
        target_socket: -1i32,
        switch_threads_to_rt_priority: 0,
        thread_count: 0,
        asm_type: 1,
        speed_control_flag: 0,
        injector_frame_rate: 0,
        unrestricted_motion_vector: 0,
        source_width: 0,
        source_height: 0,
        encoder_color_format: 1,
    }
}

/// Whether a staged preset is within the engine's documented range of 0-11.
pub open spec fn hevc_preset_valid(preset: u8) -> bool {
    preset <= 11
}

/// The intra refresh policy a session resolves from a committed record: the
/// sentinel `-1` selects the open-GOP policy, and any other staged value is
/// a closed-GOP size.
pub open spec fn resolved_intra_refresh(code: i32) -> IntraRefreshType {
    if code == -1 {
        IntraRefreshType::Open
    } else {
        IntraRefreshType::Closed(code)
    }
}

/// A helper for building an encode configuration.
///
/// The builder owns the engine handle the session will run on, together
/// with the staged value record, which is reachable through the `cfg`
/// field.  Each setter consumes the builder and returns it with exactly one
/// tunable restaged.
#[derive(Debug)]
pub struct HevcEncoderConfig {
    handle: LibraryHandle,
    /// The staged value record.
    pub cfg: HevcParameters,
}

impl Default for HevcEncoderConfig {
    /// Acquires a fresh engine handle with the initial staged record.
    fn default() -> (r: HevcEncoderConfig)
        ensures
            r.params() == initial_hevc_parameters(),
    {
        HevcEncoderConfig {
            handle: LibraryHandle::acquire(),
            cfg: HevcParameters {
                enc_mode: 7,
                intra_period_length: -2i32,
                intra_refresh_type: -1i32,
                hierarchical_levels: 0,
                pred_structure: 0,
                base_layer_switch_mode: 0,
                frame_rate_numerator: 0,
                frame_rate_denominator: 0,
                encoder_bit_depth: 8,
                compressed_ten_bit_format: 0,
                bit_rate_reduction: 0,
                improve_sharpness: 0,
                interlaced_video: 0,
                qp: 0,
                tile_slice_mode: 0,
                tile_column_count: 0,
                tile_row_count: 0,
                disable_dlf_flag: 0,
                enable_sao_flag: 0,
                use_default_me_hme: 0,
                enable_hme_flag: 0,
                search_area_width: 0,
                search_area_height: 0,
                constrained_intra: 0,
                rate_control_mode: 0,
                scene_change_detection: 0,
                look_ahead_distance: 0,
                target_bit_rate: 0,
                max_qp_allowed: 0,
                min_qp_allowed: 0,
                code_vps_sps_pps: 0,
                code_eos_nal: 0,
                video_usability_info: 0,
                high_dynamic_range_input: 0,
                access_unit_delimiter: 0,
                buffering_period_sei: 0,
                picture_timing_sei: 0,
                registered_user_data_sei_flag: 0,
                unregistered_user_data_sei_flag: 0,
                recovery_point_sei_flag: 0,
                enable_temporal_id: 0,
                profile: 0,
                tier: 0,
                level: 0,
                fps_in_vps: 0,
                vbv_max_rate: 0,
                vbv_buf_size: 0,
                vbv_buf_init: 0,
                hrd_flag: 0,
                channel_id: 0,
                active_channel_count: 0,
                logical_processors: 0,
                first_logical_processor: 0,
                target_socket: -1i32,
                switch_threads_to_rt_priority: 0,
                thread_count: 0,
                asm_type: 1,
                speed_control_flag: 0,
                injector_frame_rate: 0,
                unrestricted_motion_vector: 0,
                source_width: 0,
                source_height: 0,
                encoder_color_format: 1,
            },
        }
    }
}

impl HevcEncoderConfig {
    /// The staged value record, as seen by specifications.
    pub closed spec fn params(&self) -> HevcParameters {
        self.cfg
    }

    /// The staged record as committed for the given frame geometry and
    /// subsampling format: the record the embedding hands to the engine's
    /// parameter-transfer call before initialization.
    pub fn committed_parameters(
        &self,
        width: u32,
        height: u32,
        subsampling_format: SubsamplingFormat,
    ) -> (r: HevcParameters)
        ensures
            r == (HevcParameters {
                source_width: width,
                source_height: height,
                encoder_color_format: match subsampling_format {
                    SubsamplingFormat::Yuv400 => 0u32,
                    SubsamplingFormat::Yuv420 => 1u32,
                    SubsamplingFormat::Yuv422 => 2u32,
                    SubsamplingFormat::Yuv444 => 3u32,
                },
                ..self.params()
            }),
    {
        let mut cfg = self.cfg;

        // Set the frame size.
        cfg.source_width = width;
        cfg.source_height = height;
        cfg.encoder_color_format = match subsampling_format {
            SubsamplingFormat::Yuv400 => 0,
            SubsamplingFormat::Yuv420 => 1,
            SubsamplingFormat::Yuv422 => 2,
            SubsamplingFormat::Yuv444 => 3,
        };

        cfg
    }

    /// Creates a new encoder session from the config.
    ///
    /// The embedding commits in two steps against the record
    /// [`HevcEncoderConfig::committed_parameters`] builds: the engine's
    /// parameter-transfer call, then its initialization call; `code` is
    /// zero when both succeeded and the first failing call's result code
    /// otherwise.  The staged preset is validated here against its
    /// documented range first and rejected with [`Error::BadParameter`], as
    /// the engine's own parameter check rejects it; any other failure of
    /// the two-step commit is `code` classified through the taxonomy.  On
    /// success the session re-derives its authoritative subsampling format
    /// and intra refresh policy from the committed record, not from the
    /// caller's original arguments.  No partial session is ever produced.
    pub fn create_encoder(
        self,
        width: u32,
        height: u32,
        subsampling_format: SubsamplingFormat,
        code: i32,
    ) -> (r: Result<HevcEncoder, Error>)
        ensures
            !hevc_preset_valid(self.params().enc_mode) ==> r == Err::<HevcEncoder, Error>(
                Error::BadParameter,
            ),
            hevc_preset_valid(self.params().enc_mode) && code != EB_ERROR_NONE ==> (match r {
                Err(e) => Result::<(), Error>::Err(e) == classified(code),
                Ok(_) => false,
            }),
            hevc_preset_valid(self.params().enc_mode) && code == EB_ERROR_NONE ==> (match r {
                Ok(enc) => {
                    &&& enc.format() == subsampling_format
                    &&& enc.spec_intra_refresh_type() == resolved_intra_refresh(
                        self.params().intra_refresh_type,
                    )
                    &&& !enc.finishing()
                    &&& !enc.drained()
                },
                Err(_) => false,
            }),
    {
        let cfg = self.committed_parameters(width, height, subsampling_format);

        // Validate the committed parameters before starting the encoder.
        if !(cfg.enc_mode <= 11) {
            return Err(Error::BadParameter);
        }

        // Classify the engine's verdict on the two-step commit.
        match result(code) {
            Err(e) => {
                return Err(e);
            },
            Ok(_) => {},
        }

        Ok(
            HevcEncoder {
                handle: self.handle,
                intra_refresh_type: if cfg.intra_refresh_type == -1 {
                    IntraRefreshType::Open
                } else {
                    IntraRefreshType::Closed(cfg.intra_refresh_type)
                },
                subsampling_format: match cfg.encoder_color_format {
                    0 => SubsamplingFormat::Yuv400,
                    1 => SubsamplingFormat::Yuv420,
                    2 => SubsamplingFormat::Yuv422,
                    _ => SubsamplingFormat::Yuv444,
                },
                finishing: false,
                drained: false,
            },
        )
    }

    /// Sets the encoder preset, from 0-11, with 0 being the highest quality and 11 the highest density.
    pub fn preset(self, preset: u8) -> (r: Self)
        ensures
            r.params() == (HevcParameters { enc_mode: preset, ..self.params() }),
    {
        let mut this = self;
        this.cfg.enc_mode = preset;
        this
    }

    /// Sets the intra refresh period.
    pub fn intra_period_length(self, intra_period_length: IntraPeriod) -> (r: Self)
        ensures
            r.params() == (HevcParameters {
                intra_period_length: match intra_period_length {
                    IntraPeriod::Auto => -2i32,
                    IntraPeriod::Disabled => -1i32,
                    IntraPeriod::Fixed(frames) => frames as i32,
                },
                ..self.params()
            }),
    {
        let mut this = self;
        this.cfg.intra_period_length = match intra_period_length {
            IntraPeriod::Auto => -2,
            IntraPeriod::Disabled => -1,
            IntraPeriod::Fixed(frames) => frames as i32,
        };
        this
    }

    /// Sets the intra refresh type.
    pub fn intra_refresh_type(self, intra_refresh_type: IntraRefreshType) -> (r: Self)
        ensures
            r.params() == (HevcParameters {
                intra_refresh_type: match intra_refresh_type {
                    IntraRefreshType::Open => -1i32,
                    IntraRefreshType::Closed(gop_size) => gop_size,
                },
                ..self.params()
            }),
    {
        let mut this = self;
        this.cfg.intra_refresh_type = match intra_refresh_type {
            IntraRefreshType::Open => -1,
            IntraRefreshType::Closed(gop_size) => gop_size,
        };
        this
    }

    /// Sets the number of hierarchical layers to use in each GOP.
    pub fn hierarchical_levels(self, hierarchical_levels: u32) -> (r: Self)
        ensures
            r.params() == (HevcParameters { hierarchical_levels: hierarchical_levels, ..self.params() }),
    {
        let mut this = self;
        this.cfg.hierarchical_levels = hierarchical_levels;
        this
    }

    /// Configures the prediction structure for each GOP.
    pub fn pred_structure(self, pred_structure: PredictionStructure) -> (r: Self)
        ensures
            r.params() == (HevcParameters {
                pred_structure: match pred_structure {
                    PredictionStructure::LowDelayP => 0u8,
                    PredictionStructure::LowDelayB => 1u8,
                    PredictionStructure::RandomAccess => 2u8,
                },
                ..self.params()
            }),
    {
        let mut this = self;
        this.cfg.pred_structure = match pred_structure {
            PredictionStructure::LowDelayP => 0,
            PredictionStructure::LowDelayB => 1,
            PredictionStructure::RandomAccess => 2,
        };
        this
    }

    /// Changes the type of frame used for the base layer in
    /// [`PredictionStructure::RandomAccess`] mode.
    pub fn base_layer_switch_mode(self, base_layer_switch_mode: BaseLayerSwitchMode) -> (r: Self)
        ensures
            r.params() == (HevcParameters {
                base_layer_switch_mode: match base_layer_switch_mode {
                    BaseLayerSwitchMode::B => 0u8,
                    BaseLayerSwitchMode::P => 1u8,
                },
                ..self.params()
            }),
    {
        let mut this = self;
        this.cfg.base_layer_switch_mode = match base_layer_switch_mode {
            BaseLayerSwitchMode::B => 0,
            BaseLayerSwitchMode::P => 1,
        };
        this
    }

    /// Sets the input framerate.
    pub fn framerate(self, numerator: u32, denominator: u32) -> (r: Self)
        ensures
            r.params() == (HevcParameters {
                frame_rate_numerator: numerator as i32,
                frame_rate_denominator: denominator as i32,
                ..self.params()
            }),
    {
        let mut this = self;
        this.cfg.frame_rate_numerator = numerator as i32;
        this.cfg.frame_rate_denominator = denominator as i32;
        this
    }

    /// Sets the input bit depth (8 or 10).
    pub fn encoder_bit_depth(self, bit_depth: u32) -> (r: Self)
        ensures
            r.params() == (HevcParameters { encoder_bit_depth: bit_depth, ..self.params() }),
    {
        let mut this = self;
        this.cfg.encoder_bit_depth = bit_depth;
        this
    }

    /// Configures the encoder to expect a special format for the input, where the extra two bits in 10-bit are packed.
    pub fn compressed_ten_bit_format(self, v: bool) -> (r: Self)
        ensures
            r.params() == (HevcParameters {
                compressed_ten_bit_format: if v {
                    1u32
                } else {
                    0u32
                },
                ..self.params()
            }),
    {
        let mut this = self;
        this.cfg.compressed_ten_bit_format = if v {
            1
        } else {
            0
        };
        this
    }

    /// Enables automatic subjective bit rate reduction.
    pub fn enable_auto_bit_rate_reduction(self, v: bool) -> (r: Self)
        ensures
            r.params() == (HevcParameters {
                bit_rate_reduction: if v {
                    1u8
                } else {
                    0u8
                },
                ..self.params()
            }),
    {
        let mut this = self;
        this.cfg.bit_rate_reduction = if v {
            1
        } else {
            0
        };
        this
    }

    /// Enables the use of a sharpness algorithm. Only available for 4k or 8k resolutions.
    pub fn enable_auto_improve_sharpness(self, v: bool) -> (r: Self)
        ensures
            r.params() == (HevcParameters {
                improve_sharpness: if v {
                    1u8
                } else {
                    0u8
                },
                ..self.params()
            }),
    {
        let mut this = self;
        this.cfg.improve_sharpness = if v {
            1
        } else {
            0
        };
        this
    }

    /// Enables SEI messages with interlaced signaling.
    pub fn enable_interlaced_video(self, v: bool) -> (r: Self)
        ensures
            r.params() == (HevcParameters {
                interlaced_video: if v {
                    1u8
                } else {
                    0u8
                },
                ..self.params()
            }),
    {
        let mut this = self;
        this.cfg.interlaced_video = if v {
            1
        } else {
            0
        };
        this
    }

    /// Sets the target QP for [`RateControlMode::ConstantQp`].
    pub fn qp(self, qp: u32) -> (r: Self)
        ensures
            r.params() == (HevcParameters { qp: qp, ..self.params() }),
    {
        let mut this = self;
        this.cfg.qp = qp;
        this
    }

    /// Enables multi-tile mode.
    pub fn tiling(self, tiling_mode: TilingMode) -> (r: Self)
        ensures
            r.params() == (match tiling_mode {
                TilingMode::Single => HevcParameters { tile_slice_mode: 0u8, ..self.params() },
                TilingMode::Multi { columns, rows } => HevcParameters {
                    tile_column_count: columns,
                    tile_row_count: rows,
                    tile_slice_mode: 1u8,
                    ..self.params()
                },
            }),
    {
        let mut this = self;
        match tiling_mode {
            TilingMode::Single => {
                this.cfg.tile_slice_mode = 0;
            },
            TilingMode::Multi { columns, rows } => {
                this.cfg.tile_column_count = columns;
                this.cfg.tile_row_count = rows;
                this.cfg.tile_slice_mode = 1;
            },
        }

        this
    }

    /// Disables deblocking loop filtering.
    pub fn disable_dlf(self, v: bool) -> (r: Self)
        ensures
            r.params() == (HevcParameters {
                disable_dlf_flag: if v {
                    1u8
                } else {
                    0u8
                },
                ..self.params()
            }),
    {
        let mut this = self;
        this.cfg.disable_dlf_flag = if v {
            1
        } else {
            0
        };
        this
    }

    /// Enables sample adaptive filtering.
    pub fn enable_sao(self, v: bool) -> (r: Self)
        ensures
            r.params() == (HevcParameters {
                enable_sao_flag: if v {
                    1u8
                } else {
                    0u8
                },
                ..self.params()
            }),
    {
        let mut this = self;
        this.cfg.enable_sao_flag = if v {
            1
        } else {
            0
        };
        this
    }

    /// Enables the use of default motion estimation parameters.
    pub fn use_default_me_hme(self, v: bool) -> (r: Self)
        ensures
            r.params() == (HevcParameters {
                use_default_me_hme: if v {
                    1u8
                } else {
                    0u8
                },
                ..self.params()
            }),
    {
        let mut this = self;
        this.cfg.use_default_me_hme = if v {
            1
        } else {
            0
        };
        this
    }

    /// Enables the use of hierarchical motion estimation.
    pub fn enable_hme(self, v: bool) -> (r: Self)
        ensures
            r.params() == (HevcParameters {
                enable_hme_flag: if v {
                    1u8
                } else {
                    0u8
                },
                ..self.params()
            }),
    {
        let mut this = self;
        this.cfg.enable_hme_flag = if v {
            1
        } else {
            0
        };
        this
    }

    /// Sets the search area width for motion estimation. If not set and [`HevcEncoderConfig::use_default_me_hme`] is true (the default), the width will depend on the input resolution.
    pub fn search_area_width(self, width: u32) -> (r: Self)
        ensures
            r.params() == (HevcParameters { search_area_width: width, ..self.params() }),
    {
        let mut this = self;
        this.cfg.search_area_width = width;
        this
    }

    /// Sets the search area height for motion estimation. If not set and [`HevcEncoderConfig::use_default_me_hme`] is true (the default), the height will depend on the input resolution.
    pub fn search_area_height(self, height: u32) -> (r: Self)
        ensures
            r.params() == (HevcParameters { search_area_height: height, ..self.params() }),
    {
        let mut this = self;
        this.cfg.search_area_height = height;
        this
    }

    /// Enables constrained intra.
    pub fn enable_constrained_intra(self, v: bool) -> (r: Self)
        ensures
            r.params() == (HevcParameters {
                constrained_intra: if v {
                    1u8
                } else {
                    0u8
                },
                ..self.params()
            }),
    {
        let mut this = self;
        this.cfg.constrained_intra = if v {
            1
        } else {
            0
        };
        this
    }

    /// Sets the rate control mode.
    pub fn rate_control_mode(self, rate_control_mode: RateControlMode) -> (r: Self)
        ensures
            r.params() == (HevcParameters {
                rate_control_mode: match rate_control_mode {
                    RateControlMode::ConstantQp => 0u32,
                    RateControlMode::VariableBitrate => 1u32,
                },
                ..self.params()
            }),
    {
        let mut this = self;
        this.cfg.rate_control_mode = match rate_control_mode {
            RateControlMode::ConstantQp => 0,
            RateControlMode::VariableBitrate => 1,
        };
        this
    }

    /// Enables scene change detection.
    pub fn enable_scene_change_detection(self, v: bool) -> (r: Self)
        ensures
            r.params() == (HevcParameters {
                scene_change_detection: if v {
                    1u32
                } else {
                    0u32
                },
                ..self.params()
            }),
    {
        let mut this = self;
        this.cfg.scene_change_detection = if v {
            1
        } else {
            0
        };
        this
    }

    /// Sets the look-ahead distance.
    pub fn look_ahead_distance(self, distance: u32) -> (r: Self)
        ensures
            r.params() == (HevcParameters { look_ahead_distance: distance, ..self.params() }),
    {
        let mut this = self;
        this.cfg.look_ahead_distance = distance;
        this
    }

    /// Sets the target bitrate for the [`RateControlMode::VariableBitrate`] mode.
    pub fn target_bitrate(self, bitrate: u32) -> (r: Self)
        ensures
            r.params() == (HevcParameters { target_bit_rate: bitrate, ..self.params() }),
    {
        let mut this = self;
        this.cfg.target_bit_rate = bitrate;
        this
    }

    /// Sets the maximum QP for the [`RateControlMode::VariableBitrate`] mode.
    pub fn max_qp_allowed(self, qp: u32) -> (r: Self)
        ensures
            r.params() == (HevcParameters { max_qp_allowed: qp, ..self.params() }),
    {
        let mut this = self;
        this.cfg.max_qp_allowed = qp;
        this
    }

    /// Sets the minimum QP for the [`RateControlMode::VariableBitrate`] mode.
    pub fn min_qp_allowed(self, qp: u32) -> (r: Self)
        ensures
            r.params() == (HevcParameters { min_qp_allowed: qp, ..self.params() }),
    {
        let mut this = self;
        this.cfg.min_qp_allowed = qp;
        this
    }

    /// Enables generation of VPS, SPS, and PPS NAL units.
    pub fn code_vps_sps_pps(self, v: bool) -> (r: Self)
        ensures
            r.params() == (HevcParameters {
                code_vps_sps_pps: if v {
                    1u8
                } else {
                    0u8
                },
                ..self.params()
            }),
    {
        let mut this = self;
        this.cfg.code_vps_sps_pps = if v {
            1
        } else {
            0
        };
        this
    }

    /// Enables generation of EOS NAL units.
    pub fn code_eos(self, v: bool) -> (r: Self)
        ensures
            r.params() == (HevcParameters {
                code_eos_nal: if v {
                    1u8
                } else {
                    0u8
                },
                ..self.params()
            }),
    {
        let mut this = self;
        this.cfg.code_eos_nal = if v {
            1
        } else {
            0
        };
        this
    }

    /// Enables generation of VUI NAL units.
    pub fn code_vui(self, v: bool) -> (r: Self)
        ensures
            r.params() == (HevcParameters {
                video_usability_info: if v {
                    1u32
                } else {
                    0u32
                },
                ..self.params()
            }),
    {
        let mut this = self;
        this.cfg.video_usability_info = if v {
            1
        } else {
            0
        };
        this
    }

    /// Configures the encoder to expect input in the BT2020 color space. Only applicable for 10-bit input. Requires [`HevcEncoderConfig::code_vui`] to be enabled.
    pub fn hdr_input(self, v: bool) -> (r: Self)
        ensures
            r.params() == (HevcParameters {
                high_dynamic_range_input: if v {
                    1u32
                } else {
                    0u32
                },
                ..self.params()
            }),
    {
        let mut this = self;
        this.cfg.high_dynamic_range_input = if v {
            1
        } else {
            0
        };
        this
    }

    /// Enables generation of access unit delimiters.
    pub fn code_access_unit_delimiters(self, v: bool) -> (r: Self)
        ensures
            r.params() == (HevcParameters {
                access_unit_delimiter: if v {
                    1u32
                } else {
                    0u32
                },
                ..self.params()
            }),
    {
        let mut this = self;
        this.cfg.access_unit_delimiter = if v {
            1
        } else {
            0
        };
        this
    }

    /// Enables generation of buffering period SEI NAL units.
    pub fn code_buffering_period_sei(self, v: bool) -> (r: Self)
        ensures
            r.params() == (HevcParameters {
                buffering_period_sei: if v {
                    1u32
                } else {
                    0u32
                },
                ..self.params()
            }),
    {
        let mut this = self;
        this.cfg.buffering_period_sei = if v {
            1
        } else {
            0
        };
        this
    }

    /// Enables generation of picture timing SEI NAL units.
    pub fn code_picture_timing_sei(self, v: bool) -> (r: Self)
        ensures
            r.params() == (HevcParameters {
                picture_timing_sei: if v {
                    1u32
                } else {
                    0u32
                },
                ..self.params()
            }),
    {
        let mut this = self;
        this.cfg.picture_timing_sei = if v {
            1
        } else {
            0
        };
        this
    }

    /// Enables generation of user data SEI NAL units for registered users.
    pub fn registered_user_data_sei(self, v: bool) -> (r: Self)
        ensures
            r.params() == (HevcParameters {
                registered_user_data_sei_flag: if v {
                    1u32
                } else {
                    0u32
                },
                ..self.params()
            }),
    {
        let mut this = self;
        this.cfg.registered_user_data_sei_flag = if v {
            1
        } else {
            0
        };
        this
    }

    /// Enables generation of user data SEI NAL units for unregistered users.
    pub fn unregistered_user_data_sei(self, v: bool) -> (r: Self)
        ensures
            r.params() == (HevcParameters {
                unregistered_user_data_sei_flag: if v {
                    1u32
                } else {
                    0u32
                },
                ..self.params()
            }),
    {
        let mut this = self;
        this.cfg.unregistered_user_data_sei_flag = if v {
            1
        } else {
            0
        };
        this
    }

    /// Enables generation of recovery point SEI NAL units.
    pub fn recovery_point_sei(self, v: bool) -> (r: Self)
        ensures
            r.params() == (HevcParameters {
                recovery_point_sei_flag: if v {
                    1u32
                } else {
                    0u32
                },
                ..self.params()
            }),
    {
        let mut this = self;
        this.cfg.recovery_point_sei_flag = if v {
            1
        } else {
            0
        };
        this
    }

    /// Enables insertion of temporal IDs in NAL units.
    pub fn enable_teporal_id(self, v: bool) -> (r: Self)
        ensures
            r.params() == (HevcParameters {
                enable_temporal_id: if v {
                    1u32
                } else {
                    0u32
                },
                ..self.params()
            }),
    {
        let mut this = self;
        this.cfg.enable_temporal_id = if v {
            1
        } else {
            0
        };
        this
    }

    /// Sets the HEVC profile.
    pub fn profile(self, profile: HevcProfile) -> (r: Self)
        ensures
            r.params() == (HevcParameters {
                profile: match profile {
                    HevcProfile::Main => 0u32,
                    HevcProfile::Main10 => 1u32,
                },
                ..self.params()
            }),
    {
        let mut this = self;
        this.cfg.profile = match profile {
            HevcProfile::Main => 0,
            HevcProfile::Main10 => 1,
        };
        this
    }

    /// Enables the usage of high-tier HEVC features.
    pub fn tier(self, tier: HevcTier) -> (r: Self)
        ensures
            r.params() == (HevcParameters {
                tier: match tier {
                    HevcTier::Main => 0u32,
                    HevcTier::High => 1u32,
                },
                ..self.params()
            }),
    {
        let mut this = self;
        this.cfg.tier = match tier {
            HevcTier::Main => 0,
            HevcTier::High => 1,
        };
        this
    }

    /// Sets the IDC level. A value of 0 configures the encoder to auto-detect the level. Any other value represents the level multiplied by ten - for example, 31 for level 3.1.
    pub fn level(self, level: u32) -> (r: Self)
        ensures
            r.params() == (HevcParameters { level: level, ..self.params() }),
    {
        let mut this = self;
        this.cfg.level = level;
        this
    }

    /// Enables VPS timing info.
    pub fn enable_fps_in_vps(self, v: bool) -> (r: Self)
        ensures
            r.params() == (HevcParameters {
                fps_in_vps: if v {
                    1u8
                } else {
                    0u8
                },
                ..self.params()
            }),
    {
        let mut this = self;
        this.cfg.fps_in_vps = if v {
            1
        } else {
            0
        };
        this
    }

    /// Sets the VBV maximum rate in bits/second. Only used with [`RateControlMode::VariableBitrate`].
    pub fn vbv_max_rate(self, rate: u32) -> (r: Self)
        ensures
            r.params() == (HevcParameters { vbv_max_rate: rate, ..self.params() }),
    {
        let mut this = self;
        this.cfg.vbv_max_rate = rate;
        this
    }

    /// Sets the VBV buffer size in bits/second. Only used with [`RateControlMode::VariableBitrate`].
    pub fn vbv_buf_size(self, size: u32) -> (r: Self)
        ensures
            r.params() == (HevcParameters { vbv_buf_size: size, ..self.params() }),
    {
        let mut this = self;
        this.cfg.vbv_buf_size = size;
        this
    }

    /// Sets the initial VBV buffer fullness. Only used with [`RateControlMode::VariableBitrate`].
    pub fn vbv_buf_init(self, init: u64) -> (r: Self)
        ensures
            r.params() == (HevcParameters { vbv_buf_init: init, ..self.params() }),
    {
        let mut this = self;
        this.cfg.vbv_buf_init = init;
        this
    }

    /// Enables the Hypothetical Reference Decoder flag.
    pub fn enable_hrd(self, v: bool) -> (r: Self)
        ensures
            r.params() == (HevcParameters {
                hrd_flag: if v {
                    1u32
                } else {
                    0u32
                },
                ..self.params()
            }),
    {
        let mut this = self;
        this.cfg.hrd_flag = if v {
            1
        } else {
            0
        };
        this
    }

    /// Sets the ID for the channel, if multiple channels are used.
    pub fn channel_id(self, id: u32) -> (r: Self)
        ensures
            r.params() == (HevcParameters { channel_id: id, ..self.params() }),
    {
        let mut this = self;
        this.cfg.channel_id = id;
        this
    }

    /// Sets the number of active channels.
    pub fn active_channel_count(self, count: u32) -> (r: Self)
        ensures
            r.params() == (HevcParameters { active_channel_count: count, ..self.params() }),
    {
        let mut this = self;
        this.cfg.active_channel_count = count;
        this
    }

    /// Configures the number of logical processors to use.
    pub fn logical_processors(self, count: u32) -> (r: Self)
        ensures
            r.params() == (HevcParameters { logical_processors: count, ..self.params() }),
    {
        let mut this = self;
        this.cfg.logical_processors = count;
        this
    }

    /// Configures the first logical processor to use.
    pub fn first_logical_processor(self, count: u32) -> (r: Self)
        ensures
            r.params() == (HevcParameters { first_logical_processor: count, ..self.params() }),
    {
        let mut this = self;
        this.cfg.first_logical_processor = count;
        this
    }

    /// Configures the target socket to use, for dual-socket systems.
    pub fn target_socket(self, socket: TargetSocket) -> (r: Self)
        ensures
            r.params() == (HevcParameters {
                target_socket: match socket {
                    TargetSocket::Both => -1i32,
                    TargetSocket::First => 0,
                    TargetSocket::Second => 1,
                },
                ..self.params()
            }),
    {
        let mut this = self;
        this.cfg.target_socket = match socket {
            TargetSocket::Both => -1,
            TargetSocket::First => 0,
            TargetSocket::Second => 1,
        };
        this
    }

    /// On linux, attempts to enable real-time priority on the encoding thread(s).
    pub fn switch_threads_to_rt(self, v: bool) -> (r: Self)
        ensures
            r.params() == (HevcParameters {
                switch_threads_to_rt_priority: if v {
                    1u8
                } else {
                    0u8
                },
                ..self.params()
            }),
    {
        let mut this = self;
        this.cfg.switch_threads_to_rt_priority = if v {
            1
        } else {
            0
        };
        this
    }

    /// Sets the number of worker threads to create.
    pub fn thread_count(self, count: u32) -> (r: Self)
        ensures
            r.params() == (HevcParameters { thread_count: count, ..self.params() }),
    {
        let mut this = self;
        this.cfg.thread_count = count;
        this
    }

    /// Configures which assembly instruction set to use.
    pub fn asm_type(self, asm_type: AsmType) -> (r: Self)
        ensures
            r.params() == (HevcParameters {
                asm_type: match asm_type {
                    AsmType::Disabled => 0u32,
                    AsmType::Auto => 1u32,
                },
                ..self.params()
            }),
    {
        let mut this = self;
        this.cfg.asm_type = match asm_type {
            AsmType::Disabled => 0,
            AsmType::Auto => 1,
        };
        this
    }

    /// Enables speed control, which dynamically adjusts the preset to match [`HevcEncoderConfig::framerate`].
    pub fn enable_speed_control(self, v: bool) -> (r: Self)
        ensures
            r.params() == (HevcParameters {
                speed_control_flag: if v {
                    1u32
                } else {
                    0u32
                },
                ..self.params()
            }),
    {
        let mut this = self;
        this.cfg.speed_control_flag = if v {
            1
        } else {
            0
        };
        this
    }

    /// Configures the rate at which input frames will be injected.
    pub fn injector_framerate(self, hz: u32) -> (r: Self)
        ensures
            r.params() == (HevcParameters { injector_frame_rate: hz as i32, ..self.params() }),
    {
        let mut this = self;
        this.cfg.injector_frame_rate = hz as i32;
        this
    }

    /// Configures the encoder to allow motion vectors to point outside the frame.
    pub fn unrestricted_motion_vector(self, v: bool) -> (r: Self)
        ensures
            r.params() == (HevcParameters {
                unrestricted_motion_vector: if v {
                    1u8
                } else {
                    0u8
                },
                ..self.params()
            }),
    {
        let mut this = self;
        this.cfg.unrestricted_motion_vector = if v {
            1
        } else {
            0
        };
        this
    }
}

} // verus!
