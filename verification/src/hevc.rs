//! The HEVC encoder session.
//!
//! A session is obtained by committing an [`HevcEncoderConfig`] and then
//! follows the engine's streaming protocol: pictures are submitted while
//! the session is ready, [`Encoder::finish`] submits the end-of-stream
//! input, and the remaining output is drained with blocking
//! [`Encoder::get_packet`] calls until the packet carrying the
//! end-of-stream flag has been handed out.  The native calls happen outside
//! this library: the session builds the input records the engine is handed
//! ([`HevcEncoder::picture_input`], [`HevcEncoder::flush_input`]) and takes
//! each call's outcome back as plain values, classifying every result code
//! through the fixed taxonomy.  The session owns the engine handle for its
//! whole life, so releasing it twice is impossible by construction.

use vstd::prelude::*;

use crate::{filled_length, Encoder, Error, Packet, Picture, Plane, SubsamplingFormat};

mod config;
mod packet;

pub use config::{
    AsmType, BaseLayerSwitchMode, HevcEncoderConfig, HevcParameters, HevcProfile, HevcTier,
    IntraPeriod, IntraRefreshType, PredictionStructure, RateControlMode, TargetSocket,
    TilingMode,
};
pub use packet::{
    nalu_type_of, HevcPacket, NaluType, EB_BUFFERFLAG_EOS, EB_B_PICTURE, EB_IDR_PICTURE,
    EB_INVALID_PICTURE, EB_I_PICTURE, EB_P_PICTURE,
};
pub use crate::error::{
    classified, result, EB_ERROR_BAD_PARAMETER, EB_ERROR_CREATE_MUTEX_FAILED,
    EB_ERROR_DESTROY_MUTEX_FAILED, EB_ERROR_DESTROY_SEMAPHORE_FAILED,
    EB_ERROR_DESTROY_THREAD_FAILED, EB_ERROR_INSUFFICIENT_RESOURCES,
    EB_ERROR_INVALID_COMPONENT, EB_ERROR_MUTEX_UNRESPONSIVE, EB_ERROR_NONE,
    EB_ERROR_SEMAPHORE_UNRESPONSIVE, EB_ERROR_UNDEFINED, EB_NO_ERROR_EMPTY_QUEUE,
};

verus! {

/// Exclusive ownership of one native encoder instance.  The value only
/// moves, never copies, so the matching release can be issued at most once.
#[derive(Debug)]
struct LibraryHandle {
    _exclusive: (),
}

impl LibraryHandle {
    fn acquire() -> LibraryHandle {
        LibraryHandle { _exclusive: () }
    }
}

/// One engine input record over plain values: what the native send-picture
/// call is handed besides the plane pointers and strides, which the
/// embedding takes zero-copy from the picture itself.
#[derive(Debug, Copy, Clone, PartialEq, Eq, Structural)]
pub struct PictureInput {
    /// The total filled byte length: the sum of the three plane lengths.
    pub n_filled_len: u32,
    /// The presentation timestamp.
    pub pts: i64,
    /// The requested slice-type tag.
    pub slice_type: u32,
    /// The buffer flags; only the flush input sets the end-of-stream flag.
    pub flags: u32,
}

/// An encoder instance.
///
/// The session freezes the subsampling format and the resolved intra
/// refresh policy the configuration was committed with; the former gates
/// later picture submissions, and the latter decides how a forced keyframe
/// request is encoded.
#[derive(Debug)]
pub struct HevcEncoder {
    handle: LibraryHandle,
    subsampling_format: SubsamplingFormat,
    intra_refresh_type: IntraRefreshType,
    finishing: bool,
    drained: bool,
}

impl HevcEncoder {
    /// The resolved intra refresh policy, as seen by specifications.
    pub closed spec fn spec_intra_refresh_type(&self) -> IntraRefreshType {
        self.intra_refresh_type
    }

    /// The slice-type tag submitted alongside an input picture: a forced
    /// keyframe requests an I picture under an open-GOP intra refresh policy
    /// and an IDR picture under a closed-GOP policy, and the invalid tag
    /// otherwise leaves the choice to the engine.
    pub fn requested_slice_type(&self, force_keyframe: bool) -> (r: u32)
        ensures
            r == if force_keyframe {
                match self.spec_intra_refresh_type() {
                    IntraRefreshType::Open => EB_I_PICTURE,
                    IntraRefreshType::Closed(_) => EB_IDR_PICTURE,
                }
            } else {
                EB_INVALID_PICTURE
            },
    {
        if force_keyframe {
            match self.intra_refresh_type {
                IntraRefreshType::Open => EB_I_PICTURE,
                IntraRefreshType::Closed(_) => EB_IDR_PICTURE,
            }
        } else {
            EB_INVALID_PICTURE
        }
    }

    /// Builds the input record for one picture submission: the filled
    /// length is the sum of the three plane lengths, the timestamp is
    /// passed through, the slice-type tag follows the session's intra
    /// refresh policy for a forced keyframe, and no buffer flag is set.
    /// The embedding hands this record to the native send-picture call,
    /// with the plane pointers and strides taken zero-copy from the
    /// picture.
    pub fn picture_input<Q: Picture>(&self, picture: &Q, pts: i64, force_keyframe: bool) -> (r:
        PictureInput)
        requires
            picture.spec_plane(Plane::Y).len() + picture.spec_plane(Plane::U).len()
                + picture.spec_plane(Plane::V).len() <= u32::MAX,
        ensures
            r.n_filled_len == picture.spec_plane(Plane::Y).len() + picture.spec_plane(
                Plane::U,
            ).len() + picture.spec_plane(Plane::V).len(),
            r.pts == pts,
            r.slice_type == if force_keyframe {
                match self.spec_intra_refresh_type() {
                    IntraRefreshType::Open => EB_I_PICTURE,
                    IntraRefreshType::Closed(_) => EB_IDR_PICTURE,
                }
            } else {
                EB_INVALID_PICTURE
            },
            r.flags == 0u32,
    {
        PictureInput {
            n_filled_len: filled_length(picture),
            pts,
            slice_type: self.requested_slice_type(force_keyframe),
            flags: 0,
        }
    }

    /// Builds the synthetic end-of-stream input that [`Encoder::finish`]
    /// submits: no payload, a zero filled length and timestamp, the
    /// end-of-stream buffer flag, and every other native field left at the
    /// record's zeroed default.
    pub fn flush_input(&self) -> (r: PictureInput)
        ensures
            r == (PictureInput {
                n_filled_len: 0,
                pts: 0,
                slice_type: 0,
                flags: EB_BUFFERFLAG_EOS,
            }),
    {
        PictureInput { n_filled_len: 0, pts: 0, slice_type: 0, flags: EB_BUFFERFLAG_EOS }
    }

    /// Wraps the engine's answer to stream-header generation (a VPS/SPS/PPS
    /// NAL unit, out of band of the normal picture and packet cadence): on
    /// the zero code, `data` — the generated NAL unit read from the engine
    /// buffer — becomes a packet carrying the stream-header acquisition
    /// category, which selects the header reclamation path when the buffer
    /// is released; any other code is the classified error.
    pub fn code_headers(&self, code: i32, data: Vec<u8>) -> (r: Result<HevcPacket, Error>)
        ensures
            code == EB_ERROR_NONE ==> (match r {
                Ok(p) => {
                    &&& p.spec_bytes() == data@
                    &&& p.spec_is_headers()
                    &&& !p.spec_is_eos_nal()
                    &&& !p.spec_is_eos()
                },
                Err(_) => false,
            }),
            code != EB_ERROR_NONE ==> (match r {
                Err(e) => Result::<(), Error>::Err(e) == classified(code),
                Ok(_) => false,
            }),
    {
        match result(code) {
            Ok(_) => Ok(HevcPacket::new_headers(data)),
            Err(e) => Err(e),
        }
    }

    /// Wraps the engine's answer to EOS (end-of-stream) NAL generation: on
    /// the zero code, `data` — the generated NAL unit read from the engine
    /// buffer — becomes a packet carrying the end-of-stream acquisition
    /// category, which selects the EOS reclamation path when the buffer is
    /// released; any other code is the classified error.
    pub fn code_eos(&self, code: i32, data: Vec<u8>) -> (r: Result<HevcPacket, Error>)
        ensures
            code == EB_ERROR_NONE ==> (match r {
                Ok(p) => {
                    &&& p.spec_bytes() == data@
                    &&& p.spec_is_eos_nal()
                    &&& !p.spec_is_headers()
                    &&& p.spec_is_eos()
                },
                Err(_) => false,
            }),
            code != EB_ERROR_NONE ==> (match r {
                Err(e) => Result::<(), Error>::Err(e) == classified(code),
                Ok(_) => false,
            }),
    {
        match result(code) {
            Ok(_) => Ok(HevcPacket::new_eos(data)),
            Err(e) => Err(e),
        }
    }
}

impl Encoder<HevcPacket> for HevcEncoder {
    closed spec fn finishing(&self) -> bool {
        self.finishing
    }

    closed spec fn drained(&self) -> bool {
        self.drained
    }

    closed spec fn format(&self) -> SubsamplingFormat {
        self.subsampling_format
    }

    fn send_picture<Q: Picture>(
        &self,
        _picture: &Q,
        _pts: i64,
        _force_keyframe: bool,
        code: i32,
    ) -> Result<(), Error> {
        result(code)
    }

    fn finish(&mut self, code: i32) -> Result<(), Error> {
        self.finishing = true;
        self.drained = false;
        result(code)
    }

    fn get_packet(&mut self, _wait: bool, code: i32, packet: Option<HevcPacket>) -> Result<
        Option<HevcPacket>,
        Error,
    > {
        if self.drained {
            return Ok(None);
        }
        if code == EB_ERROR_NONE {
            match packet {
                Some(p) => {
                    if p.is_eos() {
                        self.drained = true;
                    }
                    Ok(Some(p))
                },
                None => Ok(None),
            }
        } else if code == EB_NO_ERROR_EMPTY_QUEUE {
            Ok(None)
        } else {
            match result(code) {
                Err(e) => Err(e),
                Ok(_) => Ok(None),
            }
        }
    }
}

} // verus!
