//! The AV1 encoder session.
//!
//! A session is obtained by committing an [`Av1EncoderConfig`] and then
//! follows the engine's streaming protocol: pictures are submitted while the
//! session is ready, [`Encoder::finish`] submits the end-of-stream input,
//! and the remaining output is drained with blocking [`Encoder::get_packet`]
//! calls until the packet carrying the end-of-stream flag has been handed
//! out.  The native calls happen outside this library: the session builds
//! the input records the engine is handed ([`Av1Encoder::picture_input`],
//! [`Av1Encoder::flush_input`]) and takes each call's outcome back as plain
//! values, classifying every result code through the fixed taxonomy.  The
//! session owns the engine handle for its whole life, so releasing it twice
//! is impossible by construction.

use vstd::prelude::*;

use crate::{filled_length, Encoder, Error, Packet, Picture, Plane, SubsamplingFormat};

mod config;
mod packet;

pub use config::{
    Av1EncoderConfig, Av1Parameters, Av1Profile, Av1Tier, CdefLevel, ChromaSamplePosition,
    ColorRange, Colorspace, CpuFlags, IntraPeriod, IntraRefreshType, PredictionStructure,
    RateControlMode, RecodeLevel, RestorationFilteringMode, SwitchFrameInsertion, TargetSocket,
    TilingMode, Tune, EB_CSP_COLOCATED, EB_CSP_UNKNOWN, EB_CSP_VERTICAL, SFRAME_NEAREST_BASE,
    SFRAME_STRICT_BASE,
};
pub use packet::{
    frame_type_of, Av1Packet, FrameType, EB_AV1_ALT_REF_PICTURE, EB_AV1_INTER_PICTURE,
    EB_AV1_INTRA_ONLY_PICTURE, EB_AV1_INVALID_PICTURE, EB_AV1_KEY_PICTURE,
    EB_AV1_NON_REF_PICTURE, EB_BUFFERFLAG_EOS,
};
pub use crate::error::{
    classified, result, EB_ERROR_BAD_PARAMETER, EB_ERROR_CREATE_MUTEX_FAILED,
    EB_ERROR_DESTROY_MUTEX_FAILED, EB_ERROR_DESTROY_SEMAPHORE_FAILED,
    EB_ERROR_DESTROY_THREAD_FAILED, EB_ERROR_INSUFFICIENT_RESOURCES,
    EB_ERROR_INVALID_COMPONENT, EB_ERROR_MUTEX_UNRESPONSIVE, EB_ERROR_NONE,
    EB_ERROR_SEMAPHORE_UNRESPONSIVE, EB_ERROR_UNDEFINED, EB_NO_ERROR_EMPTY_QUEUE,
};

verus! {

/// Exclusive ownership of one native encoder instance.  The value only
/// moves, never copies, so the matching release can be issued at most once.
#[derive(Debug)]
struct LibraryHandle {
    _exclusive: (),
}

impl LibraryHandle {
    fn acquire() -> LibraryHandle {
        LibraryHandle { _exclusive: () }
    }
}

/// One engine input record over plain values: what the native send-picture
/// call is handed besides the plane pointers and strides, which the
/// embedding takes zero-copy from the picture itself.
#[derive(Debug, Copy, Clone, PartialEq, Eq, Structural)]
pub struct PictureInput {
    /// The total filled byte length: the sum of the three plane lengths.
    pub n_filled_len: u32,
    /// The presentation timestamp.
    pub pts: i64,
    /// The requested picture-type tag.
    pub pic_type: u32,
    /// The buffer flags; only the flush input sets the end-of-stream flag.
    pub flags: u32,
}

/// An encoder instance.
///
/// The session freezes the subsampling format the configuration was
/// committed with and uses it to gate later picture submissions.
#[derive(Debug)]
pub struct Av1Encoder {
    handle: LibraryHandle,
    subsampling_format: SubsamplingFormat,
    finishing: bool,
    drained: bool,
}

/// The picture-type tag submitted alongside an input picture: a forced
/// keyframe requests a key picture, and the invalid tag otherwise leaves
/// the choice to the engine.
pub fn requested_picture_type(force_keyframe: bool) -> (r: u32)
    ensures
        r == if force_keyframe {
            EB_AV1_KEY_PICTURE
        } else {
            EB_AV1_INVALID_PICTURE
        },
{
    if force_keyframe {
        EB_AV1_KEY_PICTURE
    } else {
        EB_AV1_INVALID_PICTURE
    }
}

impl Av1Encoder {
    /// Builds the input record for one picture submission: the filled
    /// length is the sum of the three plane lengths, the timestamp is
    /// passed through, the picture-type tag requests a key picture exactly
    /// for a forced keyframe, and no buffer flag is set.  The embedding
    /// hands this record to the native send-picture call, with the plane
    /// pointers and strides taken zero-copy from the picture.
    pub fn picture_input<Q: Picture>(&self, picture: &Q, pts: i64, force_keyframe: bool) -> (r:
        PictureInput)
        requires
            picture.spec_plane(Plane::Y).len() + picture.spec_plane(Plane::U).len()
                + picture.spec_plane(Plane::V).len() <= u32::MAX,
        ensures
            r.n_filled_len == picture.spec_plane(Plane::Y).len() + picture.spec_plane(
                Plane::U,
            ).len() + picture.spec_plane(Plane::V).len(),
            r.pts == pts,
            r.pic_type == if force_keyframe {
                EB_AV1_KEY_PICTURE
            } else {
                EB_AV1_INVALID_PICTURE
            },
            r.flags == 0u32,
    {
        PictureInput {
            n_filled_len: filled_length(picture),
            pts,
            pic_type: requested_picture_type(force_keyframe),
            flags: 0,
        }
    }

    /// Builds the synthetic end-of-stream input that [`Encoder::finish`]
    /// submits: no payload, a zero filled length and timestamp, the
    /// end-of-stream buffer flag, and every other native field left at the
    /// record's zeroed default.
    pub fn flush_input(&self) -> (r: PictureInput)
        ensures
            r == (PictureInput { n_filled_len: 0, pts: 0, pic_type: 0, flags: EB_BUFFERFLAG_EOS }),
    {
        PictureInput { n_filled_len: 0, pts: 0, pic_type: 0, flags: EB_BUFFERFLAG_EOS }
    }

    /// Wraps the engine's answer to stream-header generation (a Sequence
    /// Header OBU, out of band of the normal picture and packet cadence):
    /// on the zero code, `data` — the generated OBU read from the engine
    /// buffer — becomes a packet carrying the stream-header acquisition
    /// category, which selects the header reclamation path when the buffer
    /// is released; any other code is the classified error.
    pub fn code_headers(&self, code: i32, data: Vec<u8>) -> (r: Result<Av1Packet, Error>)
        ensures
            code == EB_ERROR_NONE ==> (match r {
                Ok(p) => {
                    &&& p.spec_bytes() == data@
                    &&& p.spec_is_headers()
                    &&& !p.spec_is_eos()
                },
                Err(_) => false,
            }),
            code != EB_ERROR_NONE ==> (match r {
                Err(e) => Result::<(), Error>::Err(e) == classified(code),
                Ok(_) => false,
            }),
    {
        match result(code) {
            Ok(_) => Ok(Av1Packet::new_headers(data)),
            Err(e) => Err(e),
        }
    }
}

impl Encoder<Av1Packet> for Av1Encoder {
    closed spec fn finishing(&self) -> bool {
        self.finishing
    }

    closed spec fn drained(&self) -> bool {
        self.drained
    }

    closed spec fn format(&self) -> SubsamplingFormat {
        self.subsampling_format
    }

    fn send_picture<Q: Picture>(
        &self,
        _picture: &Q,
        _pts: i64,
        _force_keyframe: bool,
        code: i32,
    ) -> Result<(), Error> {
        result(code)
    }

    fn finish(&mut self, code: i32) -> Result<(), Error> {
        self.finishing = true;
        self.drained = false;
        result(code)
    }

    fn get_packet(&mut self, _wait: bool, code: i32, packet: Option<Av1Packet>) -> Result<
        Option<Av1Packet>,
        Error,
    > {
        if self.drained {
            return Ok(None);
        }
        if code == EB_ERROR_NONE {
            match packet {
                Some(p) => {
                    if p.is_eos() {
                        self.drained = true;
                    }
                    Ok(Some(p))
                },
                None => Ok(None),
            }
        } else if code == EB_NO_ERROR_EMPTY_QUEUE {
            Ok(None)
        } else {
            match result(code) {
                Err(e) => Err(e),
                Ok(_) => Ok(None),
            }
        }
    }
}

} // verus!
