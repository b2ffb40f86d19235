//! Staged AV1 encoder configuration.
//!
//! The builder stages a value record mirroring the engine's native
//! configuration structure.  Setters never fail and never touch the engine:
//! each one maps a domain-level option to its native field encoding and
//! stores it.  Committing the record with
//! [`Av1EncoderConfig::create_encoder`] writes the frame geometry and
//! subsampling format, validates the staged parameters, and yields a live
//! [`Av1Encoder`] session; the record is immutable from then on.

use vstd::prelude::*;

use crate::av1::{Av1Encoder, LibraryHandle};
use crate::error::{classified, result, EB_ERROR_NONE};
use crate::{Encoder, Error, SubsamplingFormat};

mod cpu_flags;

pub use cpu_flags::{
    CpuFlags, EB_CPU_FLAGS_ALL, EB_CPU_FLAGS_AVX, EB_CPU_FLAGS_AVX2, EB_CPU_FLAGS_AVX512BW,
    EB_CPU_FLAGS_AVX512DQ, EB_CPU_FLAGS_AVX512ER, EB_CPU_FLAGS_AVX512F, EB_CPU_FLAGS_AVX512ICD,
    EB_CPU_FLAGS_AVX512PF, EB_CPU_FLAGS_AVX512VL, EB_CPU_FLAGS_INVALID, EB_CPU_FLAGS_MMX,
    EB_CPU_FLAGS_NEON, EB_CPU_FLAGS_SSE, EB_CPU_FLAGS_SSE2, EB_CPU_FLAGS_SSE3,
    EB_CPU_FLAGS_SSE41, EB_CPU_FLAGS_SSE42, EB_CPU_FLAGS_SSSE3,
};

verus! {

/// The native chroma-sample-position code for "unknown" (`EB_CSP_UNKNOWN`).
pub const EB_CSP_UNKNOWN: u32 = 0;

/// The native chroma-sample-position code for "left" (`EB_CSP_VERTICAL`).
pub const EB_CSP_VERTICAL: u32 = 1;

/// The native chroma-sample-position code for "top left"
/// (`EB_CSP_COLOCATED`).
pub const EB_CSP_COLOCATED: u32 = 2;

/// The native switch-frame mode that converts a frame only if it is an
/// alt-ref frame (`SFRAME_STRICT_BASE`).
pub const SFRAME_STRICT_BASE: u32 = 1;

/// The native switch-frame mode that converts the next alt-ref frame
/// (`SFRAME_NEAREST_BASE`).
pub const SFRAME_NEAREST_BASE: u32 = 2;

/// How often (in frames) to insert an intra refresh.
#[derive(Debug, Copy, Clone, PartialEq, Eq, Structural)]
pub enum IntraPeriod {
    /// Automatically determine the intra period.
    Auto,
    /// Do not insert intra refresh.
    Disabled,
    /// Use a fixed intra period.
    Fixed(u32),
}

/// The type of intra refresh to use.
#[derive(Debug, Copy, Clone, PartialEq, Eq, Structural)]
pub enum IntraRefreshType {
    /// Open, using CRA points for random access.
    Open,
    /// Closed, using IDR frames and a fixed GOP size.
    Closed,
}

/// The prediction structure for each GOP.
#[derive(Debug, Copy, Clone, PartialEq, Eq, Structural)]
pub enum PredictionStructure {
    /// Forward prediction only.
    LowDelay,
    /// Bidirectional prediction.
    RandomAccess,
}

/// The AV1 bitstream profile.
#[derive(Debug, Copy, Clone, PartialEq, Eq, Structural)]
pub enum Av1Profile {
    /// Main profile.
    Main,
    /// High profile.
    High,
    /// Professional profile.
    Professional,
}

/// AV1 decoder tier.
#[derive(Debug, Copy, Clone, PartialEq, Eq, Structural)]
pub enum Av1Tier {
    /// Main, for most applications.
    Main,
    /// High, for demanding applications.
    High,
}

/// Input/output color space, according to ISO/IEC 23091-4/ITU-T H.273.
#[derive(Debug, Copy, Clone, PartialEq, Eq, Structural)]
pub enum Colorspace {
    /// Unspecified color space (CP_UNSPECIFIED, TC_UNSPECIFIED,
    /// MC_UNSPECIFIED).
    Unspecified,
    /// CP_BT_709 color primaries, TC_BT_709 transfer characteristics, and
    /// MC_BT_709 matrix coefficients. Standard for HD.
    Bt709,
    /// CP_BT_2020 color primaries, TC_BT_2020_10_BIT transfer
    /// characteristics, and MC_BT_2020_NCL matrix coefficients. Standard for
    /// UHD.
    Bt2020,
    /// Some other combination. See the AV1 specification's color config
    /// semantics for details.
    Other {
        /// The color primaries.
        primaries: u32,
        /// The transfer characteristics.
        transfer_characteristics: u32,
        /// The matrix coefficients.
        matrix_coefficients: u32,
    },
}

/// Input/output color range.
#[derive(Debug, Copy, Clone, PartialEq, Eq, Structural)]
pub enum ColorRange {
    /// Studio swing (16-235 for Y, 16-240 for U and V).
    Limited,
    /// Full swing (0-255 for Y, 0-255 for U and V).
    Full,
}

/// Chroma sample position.
#[derive(Debug, Copy, Clone, PartialEq, Eq, Structural)]
pub enum ChromaSamplePosition {
    /// Top left.
    Colocated,
    /// Left.
    Vertical,
    /// Unknown.
    Unknown,
}

/// The rate control mode to use.
#[derive(Debug, Copy, Clone, PartialEq, Eq, Structural)]
pub enum RateControlMode {
    /// Use a constant QP (1-63).
    ConstantQp(u32),
    /// Use a constant rate factor to hit a target QP (1-63).
    ConstantRateFactor(u32),
    /// Use variable bitrate. The value is in bits per second.
    VariableBitrate(u32),
    /// Use a constant bitrate. The value is in bits per second.
    ConstantBitrate(u32),
}

/// The strength of the constrained directional enhancement filter.
#[derive(Debug, Copy, Clone, PartialEq, Eq, Structural)]
pub enum CdefLevel {
    /// Disable the filter.
    Off,
    /// Auto-select the filter strength.
    Auto,
    /// Enable the filter with a strength of 1-4.
    Enable(u32),
}

/// The restoration filtering mode.
#[derive(Debug, Copy, Clone, PartialEq, Eq, Structural)]
pub enum RestorationFilteringMode {
    /// Disable restoration filtering.
    Off,
    /// Enable restoration filtering.
    On,
    /// Auto-select the restoration filtering mode.
    Auto,
}

/// The tiling mode.
#[derive(Debug, Copy, Clone, PartialEq, Eq, Structural)]
pub enum TilingMode {
    /// Use a single tile.
    Single,
    /// Use multiple tiles.
    Multi {
        /// The number of columns.
        columns: u32,
        /// The number of rows.
        rows: u32,
    },
}

/// The recode loop level.
#[derive(Debug, Copy, Clone, PartialEq, Eq, Structural)]
pub enum RecodeLevel {
    /// Disable recode loops.
    Disable,
    /// Enable recoding for keyframes and when exceeding maximum bandwidth.
    EnableForKeyframesAndBandwidth,
    /// Enable recoding for keyframes, alt-ref frames, and golden frames.
    EnableForKeyframes,
    /// Enable for all frames.
    EnableAll,
    /// Auto-select the recode loop level based on the preset.
    Auto,
}

/// The tuning metric.
#[derive(Debug, Copy, Clone, PartialEq, Eq, Structural)]
pub enum Tune {
    /// Visual quality.
    Vq,
    /// PSNR (peak signal-to-noise ratio).
    Psnr,
    /// SSIM (structural similarity index).
    Ssim,
}

/// The method and interval for switch frame insertion.
#[derive(Debug, Copy, Clone, PartialEq, Eq, Structural)]
pub enum SwitchFrameInsertion {
    /// Disable switch frame insertion.
    Disabled,
    /// Insert switch frames at the given interval, converting the frame only
    /// if it is an alt-ref frame.
    Strict(u32),
    /// Insert switch frames at the given interval, converting the next
    /// alt-ref frame.
    Nearest(u32),
}

/// Which socket(s) to use for encoding, on dual-socket systems.
#[derive(Debug, Copy, Clone, PartialEq, Eq, Structural)]
pub enum TargetSocket {
    /// Use the first socket.
    First,
    /// Use the second socket.
    Second,
    /// Use both sockets.
    Both,
}

/// The value record mirroring the engine's native AV1 configuration
/// structure.  Each field holds the native encoding of one tunable; fields
/// are only meaningful in combination (bitrate fields are honored only in
/// bitrate-based rate control, QP fields only in QP-based rate control, and
/// staging a field for an inapplicable mode is legal and ignored by the
/// engine).
#[derive(Debug, Copy, Clone, PartialEq, Eq, Structural)]
pub struct Av1Parameters {
    /// The preset (`enc_mode`), trading quality for speed.
    pub enc_mode: i8,
    /// The intra refresh period in frames; `-2` is auto, `-1` is none.
    pub intra_period_length: i32,
    /// The intra refresh type: `1` open GOP, `2` closed GOP.
    pub intra_refresh_type: u32,
    /// The number of hierarchical layers in each GOP.
    pub hierarchical_levels: u32,
    /// The GOP prediction structure: `1` low delay, `2` random access.
    pub pred_structure: u32,
    /// The maximum frame width communicated in headers, if forced.
    pub forced_max_frame_width: u32,
    /// The maximum frame height communicated in headers, if forced.
    pub forced_max_frame_height: u32,
    /// The input framerate numerator.
    pub frame_rate_numerator: u32,
    /// The input framerate denominator.
    pub frame_rate_denominator: u32,
    /// The input bit depth (8 or 10).
    pub encoder_bit_depth: u32,
    /// The AV1 profile code.
    pub profile: u32,
    /// The AV1 tier code.
    pub tier: u32,
    /// The AV1 level multiplied by ten, or `0` for auto-detection.
    pub level: u32,
    /// The color primaries code.
    pub color_primaries: u32,
    /// The transfer characteristics code.
    pub transfer_characteristics: u32,
    /// The matrix coefficients code.
    pub matrix_coefficients: u32,
    /// The color range: `0` full, `1` limited.
    pub color_range: u32,
    /// The chroma sample position code.
    pub chroma_sample_position: u32,
    /// The rate control mode: `0` QP-based, `1` variable bitrate, `2`
    /// constant bitrate.
    pub rate_control_mode: u32,
    /// Whether adaptive quantization is enabled within QP-based rate
    /// control.
    pub enable_adaptive_quantization: u8,
    /// The quantization parameter for QP-based rate control.
    pub qp: u32,
    /// The target bitrate in bits per second, for bitrate-based rate
    /// control.
    pub target_bit_rate: u32,
    /// The maximum bitrate in bits per second, for QP-based rate control.
    pub max_bit_rate: u32,
    /// The minimum allowed QP in variable bitrate mode.
    pub min_qp_allowed: u32,
    /// The maximum allowed QP in variable bitrate mode.
    pub max_qp_allowed: u32,
    /// The minimum single-GOP bitrate as a percentage of the target.
    pub vbr_min_section_pct: u32,
    /// The maximum single-GOP bitrate as a percentage of the target.
    pub vbr_max_section_pct: u32,
    /// The bitrate undershoot percentage.
    pub under_shoot_pct: u32,
    /// The bitrate overshoot percentage.
    pub over_shoot_pct: u32,
    /// The maximum bitrate overshoot percentage in constant-rate-factor
    /// mode.
    pub mbr_over_shoot_pct: u32,
    /// The starting buffer level in milliseconds, for constant bitrate.
    pub starting_buffer_level_ms: i64,
    /// The optimal buffer level in milliseconds, for constant bitrate.
    pub optimal_buffer_level_ms: i64,
    /// The maximum buffer size in milliseconds, for constant bitrate.
    pub maximum_buffer_size_ms: i64,
    /// Whether the deblocking loop filter is enabled.
    pub enable_dlf_flag: u8,
    /// The film grain synthesis strength; `0` disables it.
    pub film_grain_denoise_strength: u32,
    /// Whether film grain denoising is applied to the encoded output.
    pub film_grain_denoise_apply: u8,
    /// The constrained directional enhancement filter level; `-1` is auto.
    pub cdef_level: i32,
    /// Restoration filtering: `0` off, `1` on, `-1` auto.
    pub enable_restoration_filtering: i32,
    /// Motion field motion vector control: `0` off, `1` on, `-1` auto.
    pub enable_mfmv: i32,
    /// Whether scene change detection is enabled.
    pub scene_change_detection: u32,
    /// Whether motion vectors are restricted to the frame.
    pub restricted_motion_vector: u8,
    /// The number of tile columns.
    pub tile_columns: i32,
    /// The number of tile rows.
    pub tile_rows: i32,
    /// The look-ahead distance.
    pub look_ahead_distance: u32,
    /// Whether the temporal dependency model is enabled.
    pub enable_tpl_la: u8,
    /// The recode loop level; `4` is auto.
    pub recode_loop: u32,
    /// Whether screen content mode is enabled.
    pub screen_content_mode: u32,
    /// Whether alt-ref (temporally filtered) frames are enabled.
    pub enable_tf: u8,
    /// The tuning metric: `0` visual quality, `1` PSNR, `2` SSIM.
    pub tune: u8,
    /// Whether fast-decode mode is enabled.
    pub fast_decode: u8,
    /// The switch frame insertion interval; `0` disables insertion.
    pub sframe_dist: i32,
    /// The switch frame insertion mode.
    pub sframe_mode: u32,
    /// The channel ID, if multiple channels are used.
    pub channel_id: u32,
    /// The number of active channels.
    pub active_channel_count: u32,
    /// The number of logical processors to use.
    pub logical_processors: u32,
    /// Whether execution is pinned to the configured cores.
    pub pin_threads: u32,
    /// The target socket: `-1` both, `0` first, `1` second.
    pub target_socket: i32,
    /// The enabled assembly instruction sets.
    pub use_cpu_flags: u64,
    /// The source picture width in pixels, written at commit.
    pub source_width: u32,
    /// The source picture height in pixels, written at commit.
    pub source_height: u32,
    /// The native subsampling format code, written at commit.
    pub encoder_color_format: u32,
}

/// The initial staged record: the engine's documented defaults where its
/// interface states them (a preset of 10, an automatic intra period,
/// eight-bit input, unspecified color tags, automatic filter and recode
/// selection, both sockets), and zero for the remaining pass-through
/// tunables.
pub open spec fn initial_av1_parameters() -> Av1Parameters {
    Av1Parameters {
        enc_mode: 10,
        intra_period_length: -2i32,
        intra_refresh_type: 2,
        hierarchical_levels: 0,
        pred_structure: 0,
        forced_max_frame_width: 0,
        forced_max_frame_height: 0,
        frame_rate_numerator: 0,
        frame_rate_denominator: 0,
        encoder_bit_depth: 8,
        profile: 0,
        tier: 0,
        level: 0,
        color_primaries: 2,
        transfer_characteristics: 2,
        matrix_coefficients: 2,
        color_range: 0,
        chroma_sample_position: 0,
        rate_control_mode: 0,
        enable_adaptive_quantization: 0,
        qp: 0,
        target_bit_rate: 0,
        max_bit_rate: 0,
        min_qp_allowed: 0,
        max_qp_allowed: 0,
        vbr_min_section_pct: 0,
        vbr_max_section_pct: 0,
        under_shoot_pct: 0,
        over_shoot_pct: 0,
        mbr_over_shoot_pct: 0,
        starting_buffer_level_ms: 0,
        optimal_buffer_level_ms: 0,
        maximum_buffer_size_ms: 0,
        enable_dlf_flag: 0,
        film_grain_denoise_strength: 0,
        film_grain_denoise_apply: 0,
        cdef_level: -1i32,
        enable_restoration_filtering: -1i32,
        enable_mfmv: -1i32,
        scene_change_detection: 0,
        restricted_motion_vector: 0,
        tile_columns: 0,
        tile_rows: 0,
        look_ahead_distance: 0,
        enable_tpl_la: 0,
        recode_loop: 4,
        screen_content_mode: 0,
        enable_tf: 0,
        tune: 1,
        fast_decode: 0,
        sframe_dist: 0,
        sframe_mode: 0,
        channel_id: 0,
        active_channel_count: 0,
        logical_processors: 0,
        pin_threads: 0,
        target_socket: -1i32,
        use_cpu_flags: 0,
        source_width: 0,
        source_height: 0,
        encoder_color_format: 1,
    }
}

/// Whether a staged preset is within the engine's documented range of 0-13.
pub open spec fn av1_preset_valid(preset: i8) -> bool {
    0 <= preset <= 13
}

/// A helper for building an encode configuration.
///
/// The builder owns the engine handle the session will run on, together
/// with the staged value record, which is reachable through the `cfg`
/// field.  Each setter consumes the builder and returns it with exactly one
/// tunable restaged.
#[derive(Debug)]
pub struct Av1EncoderConfig {
    handle: LibraryHandle,
    /// The staged value record.
    pub cfg: Av1Parameters,
}

impl Default for Av1EncoderConfig {
    /// Acquires a fresh engine handle with the initial staged record.
    fn default() -> (r: Av1EncoderConfig)
        ensures
            r.params() == initial_av1_parameters(),
    {
        Av1EncoderConfig {
            handle: LibraryHandle::acquire(),
            cfg: Av1Parameters {
                enc_mode: 10,
                intra_period_length: -2,
                intra_refresh_type: 2,
                hierarchical_levels: 0,
                pred_structure: 0,
                forced_max_frame_width: 0,
                forced_max_frame_height: 0,
                frame_rate_numerator: 0,
                frame_rate_denominator: 0,
                encoder_bit_depth: 8,
                profile: 0,
                tier: 0,
                level: 0,
                color_primaries: 2,
                transfer_characteristics: 2,
                matrix_coefficients: 2,
                color_range: 0,
                chroma_sample_position: 0,
                rate_control_mode: 0,
                enable_adaptive_quantization: 0,
                qp: 0,
                target_bit_rate: 0,
                max_bit_rate: 0,
                min_qp_allowed: 0,
                max_qp_allowed: 0,
                vbr_min_section_pct: 0,
                vbr_max_section_pct: 0,
                under_shoot_pct: 0,
                over_shoot_pct: 0,
                mbr_over_shoot_pct: 0,
                starting_buffer_level_ms: 0,
                optimal_buffer_level_ms: 0,
                maximum_buffer_size_ms: 0,
                enable_dlf_flag: 0,
                film_grain_denoise_strength: 0,
                film_grain_denoise_apply: 0,
                cdef_level: -1,
                enable_restoration_filtering: -1,
                enable_mfmv: -1,
                scene_change_detection: 0,
                restricted_motion_vector: 0,
                tile_columns: 0,
                tile_rows: 0,
                look_ahead_distance: 0,
                enable_tpl_la: 0,
                recode_loop: 4,
                screen_content_mode: 0,
                enable_tf: 0,
                tune: 1,
                fast_decode: 0,
                sframe_dist: 0,
                sframe_mode: 0,
                channel_id: 0,
                active_channel_count: 0,
                logical_processors: 0,
                pin_threads: 0,
                target_socket: -1,
                use_cpu_flags: 0,
                source_width: 0,
                source_height: 0,
                encoder_color_format: 1,
            },
        }
    }
}

impl Av1EncoderConfig {
    /// The staged value record, as seen by specifications.
    pub closed spec fn params(&self) -> Av1Parameters {
        self.cfg
    }

    /// The staged record as committed for the given frame geometry and
    /// subsampling format: the record the embedding hands to the engine's
    /// parameter-transfer call before initialization.
    pub fn committed_parameters(
        &self,
        width: u32,
        height: u32,
        subsampling_format: SubsamplingFormat,
    ) -> (r: Av1Parameters)
        ensures
            r == (Av1Parameters {
                source_width: width,
                source_height: height,
                encoder_color_format: match subsampling_format {
                    SubsamplingFormat::Yuv400 => 0u32,
                    SubsamplingFormat::Yuv420 => 1u32,
                    SubsamplingFormat::Yuv422 => 2u32,
                    SubsamplingFormat::Yuv444 => 3u32,
                },
                ..self.params()
            }),
    {
        let mut cfg = self.cfg;

        // Set the frame size.
        cfg.source_width = width;
        cfg.source_height = height;
        cfg.encoder_color_format = match subsampling_format {
            SubsamplingFormat::Yuv400 => 0,
            SubsamplingFormat::Yuv420 => 1,
            SubsamplingFormat::Yuv422 => 2,
            SubsamplingFormat::Yuv444 => 3,
        };

        cfg
    }

    /// Creates a new encoder session from the config.
    ///
    /// The embedding commits in two steps against the record
    /// [`Av1EncoderConfig::committed_parameters`] builds: the engine's
    /// parameter-transfer call, then its initialization call; `code` is
    /// zero when both succeeded and the first failing call's result code
    /// otherwise.  The staged preset is validated here against its
    /// documented range first and rejected with [`Error::BadParameter`], as
    /// the engine's own parameter check rejects it; any other failure of
    /// the two-step commit is `code` classified through the taxonomy.  On
    /// success the session re-derives its authoritative subsampling format
    /// from the committed record, not from the caller's original argument.
    /// No partial session is ever produced.
    pub fn create_encoder(
        self,
        width: u32,
        height: u32,
        subsampling_format: SubsamplingFormat,
        code: i32,
    ) -> (r: Result<Av1Encoder, Error>)
        ensures
            !av1_preset_valid(self.params().enc_mode) ==> r == Err::<Av1Encoder, Error>(
                Error::BadParameter,
            ),
            av1_preset_valid(self.params().enc_mode) && code != EB_ERROR_NONE ==> (match r {
                Err(e) => Result::<(), Error>::Err(e) == classified(code),
                Ok(_) => false,
            }),
            av1_preset_valid(self.params().enc_mode) && code == EB_ERROR_NONE ==> (match r {
                Ok(enc) => {
                    &&& enc.format() == subsampling_format
                    &&& !enc.finishing()
                    &&& !enc.drained()
                },
                Err(_) => false,
            }),
    {
        let cfg = self.committed_parameters(width, height, subsampling_format);

        // Validate the committed parameters before starting the encoder.
        if !(0 <= cfg.enc_mode && cfg.enc_mode <= 13) {
            return Err(Error::BadParameter);
        }

        // Classify the engine's verdict on the two-step commit.
        match result(code) {
            Err(e) => {
                return Err(e);
            },
            Ok(_) => {},
        }

        Ok(
            Av1Encoder {
                handle: self.handle,
                subsampling_format: match cfg.encoder_color_format {
                    0 => SubsamplingFormat::Yuv400,
                    1 => SubsamplingFormat::Yuv420,
                    2 => SubsamplingFormat::Yuv422,
                    _ => SubsamplingFormat::Yuv444,
                },
                finishing: false,
                drained: false,
            },
        )
    }

    /// Sets the encoder preset, from 0-13, with 0 being the highest quality
    /// and 13 the fastest.
    pub fn preset(self, preset: i8) -> (r: Self)
        ensures
            r.params() == (Av1Parameters { enc_mode: preset, ..self.params() }),
    {
        let mut this = self;
        this.cfg.enc_mode = preset;
        this
    }

    /// Sets the intra refresh period.
    pub fn intra_period_length(self, intra_period_length: IntraPeriod) -> (r: Self)
        ensures
            r.params() == (Av1Parameters {
                intra_period_length: match intra_period_length {
                    IntraPeriod::Auto => -2i32,
                    IntraPeriod::Disabled => -1i32,
                    IntraPeriod::Fixed(frames) => frames as i32,
                },
                ..self.params()
            }),
    {
        let mut this = self;
        this.cfg.intra_period_length = match intra_period_length {
            IntraPeriod::Auto => -2,
            IntraPeriod::Disabled => -1,
            IntraPeriod::Fixed(frames) => frames as i32,
        };
        this
    }

    /// Sets the intra refresh type.
    pub fn intra_refresh_type(self, intra_refresh_type: IntraRefreshType) -> (r: Self)
        ensures
            r.params() == (Av1Parameters {
                intra_refresh_type: match intra_refresh_type {
                    IntraRefreshType::Open => 1,
                    IntraRefreshType::Closed => 2,
                },
                ..self.params()
            }),
    {
        let mut this = self;
        this.cfg.intra_refresh_type = match intra_refresh_type {
            IntraRefreshType::Open => 1,
            IntraRefreshType::Closed => 2,
        };
        this
    }

    /// Sets the number of hierarchical layers to use in each GOP.
    pub fn hierarchical_levels(self, hierarchical_levels: u32) -> (r: Self)
        ensures
            r.params() == (Av1Parameters { hierarchical_levels, ..self.params() }),
    {
        let mut this = self;
        this.cfg.hierarchical_levels = hierarchical_levels;
        this
    }

    /// Configures the prediction structure for each GOP.
    pub fn pred_structure(self, pred_structure: PredictionStructure) -> (r: Self)
        ensures
            r.params() == (Av1Parameters {
                pred_structure: match pred_structure {
                    PredictionStructure::LowDelay => 1,
                    PredictionStructure::RandomAccess => 2,
                },
                ..self.params()
            }),
    {
        let mut this = self;
        this.cfg.pred_structure = match pred_structure {
            PredictionStructure::LowDelay => 1,
            PredictionStructure::RandomAccess => 2,
        };
        this
    }

    /// Set the maximum width and height to communicate in headers. This is
    /// generally only needed for producing multiple renditions with switch
    /// frames.
    pub fn set_forced_max_frame_size(self, width: u32, height: u32) -> (r: Self)
        ensures
            r.params() == (Av1Parameters {
                forced_max_frame_width: width,
                forced_max_frame_height: height,
                ..self.params()
            }),
    {
        let mut this = self;
        this.cfg.forced_max_frame_width = width;
        this.cfg.forced_max_frame_height = height;
        this
    }

    /// Sets the input framerate.
    pub fn framerate(self, numerator: u32, denominator: u32) -> (r: Self)
        ensures
            r.params() == (Av1Parameters {
                frame_rate_numerator: numerator,
                frame_rate_denominator: denominator,
                ..self.params()
            }),
    {
        let mut this = self;
        this.cfg.frame_rate_numerator = numerator;
        this.cfg.frame_rate_denominator = denominator;
        this
    }

    /// Sets the input bit depth (8 or 10).
    pub fn bit_depth(self, bit_depth: u32) -> (r: Self)
        ensures
            r.params() == (Av1Parameters { encoder_bit_depth: bit_depth, ..self.params() }),
    {
        let mut this = self;
        this.cfg.encoder_bit_depth = bit_depth;
        this
    }

    /// Sets the AV1 profile.
    pub fn profile(self, profile: Av1Profile) -> (r: Self)
        ensures
            r.params() == (Av1Parameters {
                profile: match profile {
                    Av1Profile::Main => 0,
                    Av1Profile::High => 1,
                    Av1Profile::Professional => 2,
                },
                ..self.params()
            }),
    {
        let mut this = self;
        this.cfg.profile = match profile {
            Av1Profile::Main => 0,
            Av1Profile::High => 1,
            Av1Profile::Professional => 2,
        };
        this
    }

    /// Enables the usage of high-tier AV1 features.
    pub fn tier(self, tier: Av1Tier) -> (r: Self)
        ensures
            r.params() == (Av1Parameters {
                tier: match tier {
                    Av1Tier::Main => 0,
                    Av1Tier::High => 1,
                },
                ..self.params()
            }),
    {
        let mut this = self;
        this.cfg.tier = match tier {
            Av1Tier::Main => 0,
            Av1Tier::High => 1,
        };
        this
    }

    /// Sets the AV1 level. A value of 0 configures the encoder to
    /// auto-detect the level. Any other value represents the level
    /// multiplied by ten - for example, 31 for level 3.1.
    pub fn level(self, level: u32) -> (r: Self)
        ensures
            r.params() == (Av1Parameters { level, ..self.params() }),
    {
        let mut this = self;
        this.cfg.level = level;
        this
    }

    /// Sets the color space to tag the bitstream with.  The three-code
    /// mapping is consumed verbatim by downstream decoders and muxers.
    pub fn color_space(self, color_space: Colorspace) -> (r: Self)
        ensures
            r.params() == (match color_space {
                Colorspace::Unspecified => Av1Parameters {
                    color_primaries: 2,
                    transfer_characteristics: 2,
                    matrix_coefficients: 2,
                    ..self.params()
                },
                Colorspace::Bt709 => Av1Parameters {
                    color_primaries: 1,
                    transfer_characteristics: 1,
                    matrix_coefficients: 1,
                    ..self.params()
                },
                Colorspace::Bt2020 => Av1Parameters {
                    color_primaries: 9,
                    transfer_characteristics: 14,
                    matrix_coefficients: 9,
                    ..self.params()
                },
                Colorspace::Other { primaries, transfer_characteristics, matrix_coefficients } => Av1Parameters {
                    color_primaries: primaries,
                    transfer_characteristics,
                    matrix_coefficients,
                    ..self.params()
                },
            }),
    {
        let mut this = self;
        let (cp, tc, mc): (u32, u32, u32) = match color_space {
            Colorspace::Unspecified => (2, 2, 2),
            Colorspace::Bt709 => (1, 1, 1),
            Colorspace::Bt2020 => (9, 14, 9),
            Colorspace::Other {
                primaries,
                transfer_characteristics,
                matrix_coefficients,
            } => (primaries, transfer_characteristics, matrix_coefficients),
        };

        this.cfg.color_primaries = cp;
        this.cfg.transfer_characteristics = tc;
        this.cfg.matrix_coefficients = mc;

        this
    }

    /// Sets the color range to tag the bitstream with.
    pub fn color_range(self, color_range: ColorRange) -> (r: Self)
        ensures
            r.params() == (Av1Parameters {
                color_range: match color_range {
                    ColorRange::Limited => 1,
                    ColorRange::Full => 0,
                },
                ..self.params()
            }),
    {
        let mut this = self;
        this.cfg.color_range = match color_range {
            ColorRange::Limited => 1,
            ColorRange::Full => 0,
        };
        this
    }

    /// Sets the chroma sample position to tag the bitstream with.
    pub fn chroma_sample_position(self, chroma_sample_position: ChromaSamplePosition) -> (r: Self)
        ensures
            r.params() == (Av1Parameters {
                chroma_sample_position: match chroma_sample_position {
                    ChromaSamplePosition::Colocated => EB_CSP_COLOCATED,
                    ChromaSamplePosition::Vertical => EB_CSP_VERTICAL,
                    ChromaSamplePosition::Unknown => EB_CSP_UNKNOWN,
                },
                ..self.params()
            }),
    {
        let mut this = self;
        this.cfg.chroma_sample_position = match chroma_sample_position {
            ChromaSamplePosition::Colocated => EB_CSP_COLOCATED,
            ChromaSamplePosition::Vertical => EB_CSP_VERTICAL,
            ChromaSamplePosition::Unknown => EB_CSP_UNKNOWN,
        };
        this
    }

    /// Sets the rate control mode.  QP-based modes stage the QP value, and
    /// bitrate-based modes stage the target bitrate; the fields of the
    /// inapplicable modes keep their previous staged values, which the
    /// engine ignores.
    pub fn rate_control_mode(self, rate_control_mode: RateControlMode) -> (r: Self)
        ensures
            r.params() == (match rate_control_mode {
                RateControlMode::ConstantQp(qp) => Av1Parameters {
                    rate_control_mode: 0,
                    enable_adaptive_quantization: 0,
                    qp,
                    ..self.params()
                },
                RateControlMode::ConstantRateFactor(qp) => Av1Parameters {
                    rate_control_mode: 0,
                    enable_adaptive_quantization: 1,
                    qp,
                    ..self.params()
                },
                RateControlMode::VariableBitrate(bitrate) => Av1Parameters {
                    rate_control_mode: 1,
                    target_bit_rate: bitrate,
                    ..self.params()
                },
                RateControlMode::ConstantBitrate(bitrate) => Av1Parameters {
                    rate_control_mode: 2,
                    target_bit_rate: bitrate,
                    ..self.params()
                },
            }),
    {
        let mut this = self;
        match rate_control_mode {
            RateControlMode::ConstantQp(qp) => {
                this.cfg.rate_control_mode = 0;
                this.cfg.enable_adaptive_quantization = 0;
                this.cfg.qp = qp;
            },
            RateControlMode::ConstantRateFactor(qp) => {
                this.cfg.rate_control_mode = 0;
                this.cfg.enable_adaptive_quantization = 1;
                this.cfg.qp = qp;
            },
            RateControlMode::VariableBitrate(bitrate) => {
                this.cfg.rate_control_mode = 1;
                this.cfg.target_bit_rate = bitrate;
            },
            RateControlMode::ConstantBitrate(bitrate) => {
                this.cfg.rate_control_mode = 2;
                this.cfg.target_bit_rate = bitrate;
            },
        }

        this
    }

    /// Sets the maximum bitrate in bits per second. Only applicable when
    /// using [`RateControlMode::ConstantQp`] or
    /// [`RateControlMode::ConstantRateFactor`].
    pub fn max_bitrate(self, max_bitrate: u32) -> (r: Self)
        ensures
            r.params() == (Av1Parameters { max_bit_rate: max_bitrate, ..self.params() }),
    {
        let mut this = self;
        this.cfg.max_bit_rate = max_bitrate;
        this
    }

    /// Sets the range of QP values allowed when using
    /// [`RateControlMode::VariableBitrate`]. The values must be in the range
    /// 0-63.
    pub fn qp_range(self, min_qp: u32, max_qp: u32) -> (r: Self)
        ensures
            r.params() == (Av1Parameters {
                min_qp_allowed: min_qp,
                max_qp_allowed: max_qp,
                ..self.params()
            }),
    {
        let mut this = self;
        this.cfg.min_qp_allowed = min_qp;
        this.cfg.max_qp_allowed = max_qp;
        this
    }

    /// Sets the minimum bitrate to be used for a single GOP, as a percentage
    /// of the target bitrate. The values must be in the range 0-100. Only
    /// applicable when using [`RateControlMode::VariableBitrate`].
    pub fn bitrate_section_percentage(self, min: u32, max: u32) -> (r: Self)
        ensures
            r.params() == (Av1Parameters {
                vbr_min_section_pct: min,
                vbr_max_section_pct: max,
                ..self.params()
            }),
    {
        let mut this = self;
        this.cfg.vbr_min_section_pct = min;
        this.cfg.vbr_max_section_pct = max;
        this
    }

    /// Sets the under/overshoot percentage for
    /// [`RateControlMode::VariableBitrate`] and
    /// [`RateControlMode::ConstantBitrate`] modes. The values must be in the
    /// range 0-100.
    pub fn bitrate_under_over_shoot_percentage(self, under: u32, over: u32) -> (r: Self)
        ensures
            r.params() == (Av1Parameters {
                under_shoot_pct: under,
                over_shoot_pct: over,
                ..self.params()
            }),
    {
        let mut this = self;
        this.cfg.under_shoot_pct = under;
        this.cfg.over_shoot_pct = over;
        this
    }

    /// Sets the max bitrate overshoot percentage for
    /// [`RateControlMode::ConstantRateFactor`]. The value must be in the
    /// range 0-100.
    pub fn max_bitrate_overshoot_percentage(self, max: u32) -> (r: Self)
        ensures
            r.params() == (Av1Parameters { mbr_over_shoot_pct: max, ..self.params() }),
    {
        let mut this = self;
        this.cfg.mbr_over_shoot_pct = max;
        this
    }

    /// Sets the starting buffer level, in milliseconds. Influences decoding
    /// latency. The value must be in the range 20-10000. Only applicable to
    /// [`RateControlMode::ConstantBitrate`].
    pub fn starting_buffer_level(self, buffer_level: i64) -> (r: Self)
        ensures
            r.params() == (Av1Parameters { starting_buffer_level_ms: buffer_level, ..self.params() }),
    {
        let mut this = self;
        this.cfg.starting_buffer_level_ms = buffer_level;
        this
    }

    /// Sets the optimal buffer level, in milliseconds. Influences decoding
    /// latency. The value must be in the range 20-10000. Only applicable to
    /// [`RateControlMode::ConstantBitrate`].
    pub fn optimal_buffer_level(self, buffer_level: i64) -> (r: Self)
        ensures
            r.params() == (Av1Parameters { optimal_buffer_level_ms: buffer_level, ..self.params() }),
    {
        let mut this = self;
        this.cfg.optimal_buffer_level_ms = buffer_level;
        this
    }

    /// Sets the maximum buffer size, in milliseconds. Influences decoding
    /// latency. The value must be in the range 20-10000. Only applicable to
    /// [`RateControlMode::ConstantBitrate`].
    pub fn maximum_buffer_size(self, buffer_level: i64) -> (r: Self)
        ensures
            r.params() == (Av1Parameters { maximum_buffer_size_ms: buffer_level, ..self.params() }),
    {
        let mut this = self;
        this.cfg.maximum_buffer_size_ms = buffer_level;
        this
    }

    /// Enables the deblocking loop filter.
    pub fn enable_dlf(self, v: bool) -> (r: Self)
        ensures
            r.params() == (Av1Parameters {
                enable_dlf_flag: if v {
                    1u8
                } else {
                    0u8
                },
                ..self.params()
            }),
    {
        let mut this = self;
        this.cfg.enable_dlf_flag = if v {
            1
        } else {
            0
        };
        this
    }

    /// Enables film grain synthesis. A value of 0 disables the feature,
    /// while a value between 1-50 sets the strength.
    pub fn enable_film_grain_synthesis(self, strength: u32) -> (r: Self)
        ensures
            r.params() == (Av1Parameters { film_grain_denoise_strength: strength, ..self.params() }),
    {
        let mut this = self;
        this.cfg.film_grain_denoise_strength = strength;
        this
    }

    /// Enables film grain denoising of the encoded output. If disabled, the
    /// film grain signaling is sent in the frame header.
    pub fn enable_film_grain_apply_denoise(self, apply: bool) -> (r: Self)
        ensures
            r.params() == (Av1Parameters {
                film_grain_denoise_apply: if apply {
                    1u8
                } else {
                    0u8
                },
                ..self.params()
            }),
    {
        let mut this = self;
        this.cfg.film_grain_denoise_apply = if apply {
            1
        } else {
            0
        };
        this
    }

    /// Enables the constrained directional enhancement filter.
    pub fn enable_cdef(self, strength: CdefLevel) -> (r: Self)
        ensures
            r.params() == (Av1Parameters {
                cdef_level: match strength {
                    CdefLevel::Off => 0,
                    CdefLevel::Auto => -1i32,
                    CdefLevel::Enable(strength) => strength as i32,
                },
                ..self.params()
            }),
    {
        let mut this = self;
        this.cfg.cdef_level = match strength {
            CdefLevel::Off => 0,
            CdefLevel::Auto => -1,
            CdefLevel::Enable(strength) => strength as i32,
        };
        this
    }

    /// Enables restoration filtering. A value of none implies auto
    /// selection.
    pub fn enable_restoration_filtering(self, enable: Option<bool>) -> (r: Self)
        ensures
            r.params() == (Av1Parameters {
                enable_restoration_filtering: match enable {
                    Some(true) => 1,
                    Some(false) => 0,
                    None => -1i32,
                },
                ..self.params()
            }),
    {
        let mut this = self;
        this.cfg.enable_restoration_filtering = match enable {
            Some(true) => 1,
            Some(false) => 0,
            None => -1,
        };
        this
    }

    /// Enables motion field motion vector control.
    pub fn enable_motion_field_motion_vector_control(self, enable: Option<bool>) -> (r: Self)
        ensures
            r.params() == (Av1Parameters {
                enable_mfmv: match enable {
                    Some(true) => 1,
                    Some(false) => 0,
                    None => -1i32,
                },
                ..self.params()
            }),
    {
        let mut this = self;
        this.cfg.enable_mfmv = match enable {
            Some(true) => 1,
            Some(false) => 0,
            None => -1,
        };
        this
    }

    /// Enables scene change detection.
    pub fn enable_scene_change_detection(self, v: bool) -> (r: Self)
        ensures
            r.params() == (Av1Parameters {
                scene_change_detection: if v {
                    1u32
                } else {
                    0u32
                },
                ..self.params()
            }),
    {
        let mut this = self;
        this.cfg.scene_change_detection = if v {
            1
        } else {
            0
        };
        this
    }

    /// Configures the encoder to disallow motion vectors that point outside
    /// the frame.
    pub fn restricted_motion_vector(self, v: bool) -> (r: Self)
        ensures
            r.params() == (Av1Parameters {
                restricted_motion_vector: if v {
                    1u8
                } else {
                    0u8
                },
                ..self.params()
            }),
    {
        let mut this = self;
        this.cfg.restricted_motion_vector = if v {
            1
        } else {
            0
        };
        this
    }

    /// Enables multi-tiling.
    pub fn tiling_mode(self, enable: TilingMode) -> (r: Self)
        ensures
            r.params() == (match enable {
                TilingMode::Single => Av1Parameters { tile_columns: 0, tile_rows: 0, ..self.params() },
                TilingMode::Multi { columns, rows } => Av1Parameters {
                    tile_columns: columns as i32,
                    tile_rows: rows as i32,
                    ..self.params()
                },
            }),
    {
        let mut this = self;
        match enable {
            TilingMode::Single => {
                this.cfg.tile_columns = 0;
                this.cfg.tile_rows = 0;
            },
            TilingMode::Multi { columns, rows } => {
                this.cfg.tile_columns = columns as i32;
                this.cfg.tile_rows = rows as i32;
            },
        }

        this
    }

    /// Sets the look-ahead distance.
    pub fn look_ahead_distance(self, distance: u32) -> (r: Self)
        ensures
            r.params() == (Av1Parameters { look_ahead_distance: distance, ..self.params() }),
    {
        let mut this = self;
        this.cfg.look_ahead_distance = distance;
        this
    }

    /// Enables the Temporal Dependency Model (TPL for short).
    pub fn enable_tpl(self, v: bool) -> (r: Self)
        ensures
            r.params() == (Av1Parameters {
                enable_tpl_la: if v {
                    1u8
                } else {
                    0u8
                },
                ..self.params()
            }),
    {
        let mut this = self;
        this.cfg.enable_tpl_la = if v {
            1
        } else {
            0
        };
        this
    }

    /// Sets the recode loop level.
    pub fn recode_level(self, level: RecodeLevel) -> (r: Self)
        ensures
            r.params() == (Av1Parameters {
                recode_loop: match level {
                    RecodeLevel::Disable => 0,
                    RecodeLevel::EnableForKeyframesAndBandwidth => 1,
                    RecodeLevel::EnableForKeyframes => 2,
                    RecodeLevel::EnableAll => 3,
                    RecodeLevel::Auto => 4,
                },
                ..self.params()
            }),
    {
        let mut this = self;
        this.cfg.recode_loop = match level {
            RecodeLevel::Disable => 0,
            RecodeLevel::EnableForKeyframesAndBandwidth => 1,
            RecodeLevel::EnableForKeyframes => 2,
            RecodeLevel::EnableAll => 3,
            RecodeLevel::Auto => 4,
        };
        this
    }

    /// Enables screen content mode.
    pub fn enable_screen_content_mode(self, v: bool) -> (r: Self)
        ensures
            r.params() == (Av1Parameters {
                screen_content_mode: if v {
                    1u32
                } else {
                    0u32
                },
                ..self.params()
            }),
    {
        let mut this = self;
        this.cfg.screen_content_mode = if v {
            1
        } else {
            0
        };
        this
    }

    /// Enables the use of alt-ref (temporally filtered) frames.
    pub fn enable_tf(self, v: bool) -> (r: Self)
        ensures
            r.params() == (Av1Parameters {
                enable_tf: if v {
                    1u8
                } else {
                    0u8
                },
                ..self.params()
            }),
    {
        let mut this = self;
        this.cfg.enable_tf = if v {
            1
        } else {
            0
        };
        this
    }

    /// Sets the tuning metric.
    pub fn tune(self, tune: Tune) -> (r: Self)
        ensures
            r.params() == (Av1Parameters {
                tune: match tune {
                    Tune::Vq => 0u8,
                    Tune::Psnr => 1u8,
                    Tune::Ssim => 2u8,
                },
                ..self.params()
            }),
    {
        let mut this = self;
        this.cfg.tune = match tune {
            Tune::Vq => 0,
            Tune::Psnr => 1,
            Tune::Ssim => 2,
        };
        this
    }

    /// Enables fast-decode mode.
    pub fn enable_fast_decode(self, v: bool) -> (r: Self)
        ensures
            r.params() == (Av1Parameters {
                fast_decode: if v {
                    1u8
                } else {
                    0u8
                },
                ..self.params()
            }),
    {
        let mut this = self;
        this.cfg.fast_decode = if v {
            1
        } else {
            0
        };
        this
    }

    /// Configures the use of switch frames.
    ///
    /// The strict and nearest insertion modes stage the same native mode
    /// code: the engine's interface exposes a single nearest-base constant
    /// for both, so the two domain-level options are currently
    /// indistinguishable in the committed record.
    pub fn switch_frame_insertion(self, mode: SwitchFrameInsertion) -> (r: Self)
        ensures
            r.params() == (match mode {
                SwitchFrameInsertion::Disabled => Av1Parameters { sframe_dist: 0, ..self.params() },
                SwitchFrameInsertion::Strict(interval) => Av1Parameters {
                    sframe_dist: interval as i32,
                    sframe_mode: SFRAME_NEAREST_BASE,
                    ..self.params()
                },
                SwitchFrameInsertion::Nearest(interval) => Av1Parameters {
                    sframe_dist: interval as i32,
                    sframe_mode: SFRAME_NEAREST_BASE,
                    ..self.params()
                },
            }),
    {
        let mut this = self;
        match mode {
            SwitchFrameInsertion::Disabled => {
                this.cfg.sframe_dist = 0;
            },
            SwitchFrameInsertion::Strict(interval) => {
                this.cfg.sframe_dist = interval as i32;
                this.cfg.sframe_mode = SFRAME_NEAREST_BASE;
            },
            SwitchFrameInsertion::Nearest(interval) => {
                this.cfg.sframe_dist = interval as i32;
                this.cfg.sframe_mode = SFRAME_NEAREST_BASE;
            },
        }

        this
    }

    /// Sets the ID for the channel, if multiple channels are used.
    pub fn channel_id(self, id: u32) -> (r: Self)
        ensures
            r.params() == (Av1Parameters { channel_id: id, ..self.params() }),
    {
        let mut this = self;
        this.cfg.channel_id = id;
        this
    }

    /// Sets the number of active channels.
    pub fn active_channel_count(self, count: u32) -> (r: Self)
        ensures
            r.params() == (Av1Parameters { active_channel_count: count, ..self.params() }),
    {
        let mut this = self;
        this.cfg.active_channel_count = count;
        this
    }

    /// Configures the number of logical processors to use.
    pub fn logical_processors(self, count: u32) -> (r: Self)
        ensures
            r.params() == (Av1Parameters { logical_processors: count, ..self.params() }),
    {
        let mut this = self;
        this.cfg.logical_processors = count;
        this
    }

    /// Configures the encoder to pin execution to the cores specified by
    /// [`Av1EncoderConfig::logical_processors`].
    pub fn enable_pinned_execution(self, v: bool) -> (r: Self)
        ensures
            r.params() == (Av1Parameters {
                pin_threads: if v {
                    1u32
                } else {
                    0u32
                },
                ..self.params()
            }),
    {
        let mut this = self;
        this.cfg.pin_threads = if v {
            1
        } else {
            0
        };
        this
    }

    /// Configures the target socket to use, for dual-socket systems.
    pub fn target_socket(self, socket: TargetSocket) -> (r: Self)
        ensures
            r.params() == (Av1Parameters {
                target_socket: match socket {
                    TargetSocket::Both => -1i32,
                    TargetSocket::First => 0,
                    TargetSocket::Second => 1,
                },
                ..self.params()
            }),
    {
        let mut this = self;
        this.cfg.target_socket = match socket {
            TargetSocket::Both => -1,
            TargetSocket::First => 0,
            TargetSocket::Second => 1,
        };
        this
    }

    /// Configures the enabled assembly instruction sets.
    pub fn cpu_flags(self, flags: CpuFlags) -> (r: Self)
        ensures
            r.params() == (Av1Parameters { use_cpu_flags: flags.0, ..self.params() }),
    {
        let mut this = self;
        this.cfg.use_cpu_flags = flags.bits();
        this
    }
}

} // verus!
