//! Encoded AV1 output packets and their stream metadata.

use vstd::prelude::*;

use crate::Packet;

verus! {

/// The native tag for an inter frame (`EB_AV1_INTER_PICTURE`).
pub const EB_AV1_INTER_PICTURE: u32 = 0;

/// The native tag for an alternative reference frame
/// (`EB_AV1_ALT_REF_PICTURE`).
pub const EB_AV1_ALT_REF_PICTURE: u32 = 1;

/// The native tag for an intra-only frame (`EB_AV1_INTRA_ONLY_PICTURE`).
pub const EB_AV1_INTRA_ONLY_PICTURE: u32 = 2;

/// The native tag for a key frame (`EB_AV1_KEY_PICTURE`).
pub const EB_AV1_KEY_PICTURE: u32 = 3;

/// The native tag for a non-reference frame (`EB_AV1_NON_REF_PICTURE`).
pub const EB_AV1_NON_REF_PICTURE: u32 = 4;

/// The native tag for an unspecified picture (`EB_AV1_INVALID_PICTURE`),
/// submitted with an input to leave the picture type to the engine.
pub const EB_AV1_INVALID_PICTURE: u32 = 255;

/// The buffer flag marking the last packet of the stream
/// (`EB_BUFFERFLAG_EOS`).
pub const EB_BUFFERFLAG_EOS: u32 = 1;

/// The type of a coded frame.
#[derive(Debug, Clone, Copy, PartialEq, Eq, Structural)]
pub enum FrameType {
    /// Unknown or multiple.
    Unknown,
    /// Key frame.
    Key,
    /// Inter frame.
    Inter,
    /// Intra only frame.
    IntraOnly,
    /// An alternative reference frame.
    AltRef,
}

/// The semantic category of a native frame-type tag.  The mapping is a pure
/// function of the tag: every tag outside the recognized set yields
/// [`FrameType::Unknown`].
pub open spec fn frame_type_of(tag: u32) -> FrameType {
    if tag == EB_AV1_KEY_PICTURE {
        FrameType::Key
    } else if tag == EB_AV1_INTER_PICTURE || tag == EB_AV1_NON_REF_PICTURE {
        FrameType::Inter
    } else if tag == EB_AV1_INTRA_ONLY_PICTURE {
        FrameType::IntraOnly
    } else if tag == EB_AV1_ALT_REF_PICTURE {
        FrameType::AltRef
    } else {
        FrameType::Unknown
    }
}

/// A packet of encoded data output by the encoder.
///
/// A packet corresponds to one engine-owned output buffer.  Its acquisition
/// path is recorded at construction, because ordinary output and generated
/// stream headers are returned to the engine through different reclamation
/// calls; the recorded category is what selects the matching call when the
/// native buffer is released.
#[derive(Debug)]
pub struct Av1Packet {
    data: Vec<u8>,
    pic_type: u32,
    flags: u32,
    is_headers: bool,
}

impl Av1Packet {
    /// The frame-type tag this packet carries, as seen by specifications.
    pub closed spec fn spec_pic_type(&self) -> u32 {
        self.pic_type
    }

    /// The buffer flags this packet carries, as seen by specifications.
    pub closed spec fn spec_flags(&self) -> u32 {
        self.flags
    }

    /// Whether this packet was acquired from stream-header generation, as
    /// seen by specifications.
    pub closed spec fn spec_is_headers(&self) -> bool {
        self.is_headers
    }

    /// Wraps one ordinary output buffer: its encoded bytes, the native
    /// frame-type tag, and the native buffer flags.
    pub fn new(data: Vec<u8>, pic_type: u32, flags: u32) -> (r: Av1Packet)
        ensures
            r.spec_bytes() == data@,
            r.spec_pic_type() == pic_type,
            r.spec_flags() == flags,
            r.spec_is_eos() == (flags & EB_BUFFERFLAG_EOS != 0),
            !r.spec_is_headers(),
    {
        Av1Packet { data, pic_type, flags, is_headers: false }
    }

    /// Wraps one generated stream-header buffer (a Sequence Header OBU),
    /// which is reclaimed through the header-release call rather than the
    /// ordinary output-release call.
    pub fn new_headers(data: Vec<u8>) -> (r: Av1Packet)
        ensures
            r.spec_bytes() == data@,
            r.spec_pic_type() == EB_AV1_INVALID_PICTURE,
            r.spec_flags() == 0u32,
            !r.spec_is_eos(),
            r.spec_is_headers(),
    {
        proof {
            assert(0u32 & 1u32 == 0u32) by (bit_vector);
        }
        Av1Packet { data, pic_type: EB_AV1_INVALID_PICTURE, flags: 0, is_headers: true }
    }

    /// The type of frame in the output buffer, mapped from the native tag.
    pub fn frame_type(&self) -> (r: FrameType)
        ensures
            r == frame_type_of(self.spec_pic_type()),
    {
        match self.pic_type {
            EB_AV1_KEY_PICTURE => FrameType::Key,
            EB_AV1_INTER_PICTURE => FrameType::Inter,
            EB_AV1_NON_REF_PICTURE => FrameType::Inter,
            EB_AV1_INTRA_ONLY_PICTURE => FrameType::IntraOnly,
            EB_AV1_ALT_REF_PICTURE => FrameType::AltRef,
            _ => FrameType::Unknown,
        }
    }
}

impl Packet for Av1Packet {
    closed spec fn spec_bytes(&self) -> Seq<u8> {
        self.data@
    }

    closed spec fn spec_is_eos(&self) -> bool {
        self.flags & EB_BUFFERFLAG_EOS != 0
    }

    fn as_bytes(&self) -> &[u8] {
        self.data.as_slice()
    }

    fn is_eos(&self) -> bool {
        self.flags & EB_BUFFERFLAG_EOS != 0
    }
}

} // verus!
