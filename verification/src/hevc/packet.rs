//! Encoded HEVC output packets and their stream metadata.

use vstd::prelude::*;

use crate::Packet;

verus! {

/// The native tag for a B frame (`EB_B_PICTURE`).
pub const EB_B_PICTURE: u32 = 0;

/// The native tag for a P frame (`EB_P_PICTURE`).
pub const EB_P_PICTURE: u32 = 1;

/// The native tag for an I frame (`EB_I_PICTURE`).
pub const EB_I_PICTURE: u32 = 2;

/// The native tag for an IDR frame (`EB_IDR_PICTURE`).
pub const EB_IDR_PICTURE: u32 = 3;

/// The native tag for an unspecified picture (`EB_INVALID_PICTURE`),
/// submitted with an input to leave the picture type to the engine.
pub const EB_INVALID_PICTURE: u32 = 255;

/// The buffer flag marking the last packet of the stream
/// (`EB_BUFFERFLAG_EOS`).
pub const EB_BUFFERFLAG_EOS: u32 = 1;

/// The acquisition path of a packet, which selects the reclamation call
/// that returns its engine buffer.
#[derive(Debug)]
enum DropType {
    Headers,
    Output,
    Eos,
}

/// The type of a NAL unit.
#[derive(Debug, Clone, Copy, PartialEq, Eq, Structural)]
pub enum NaluType {
    /// Unknown or multiple.
    Unknown,
    /// A B frame.
    B,
    /// A P frame.
    P,
    /// An I frame.
    I,
    /// An IDR frame.
    IDR,
}

/// The semantic category of a native slice-type tag.  The mapping is a pure
/// function of the tag: every tag outside the recognized set yields
/// [`NaluType::Unknown`].
pub open spec fn nalu_type_of(tag: u32) -> NaluType {
    if tag == EB_B_PICTURE {
        NaluType::B
    } else if tag == EB_P_PICTURE {
        NaluType::P
    } else if tag == EB_I_PICTURE {
        NaluType::I
    } else if tag == EB_IDR_PICTURE {
        NaluType::IDR
    } else {
        NaluType::Unknown
    }
}

/// A packet of encoded data output by the encoder.
///
/// A packet corresponds to one engine-owned output buffer.  Its acquisition
/// path is recorded at construction, because ordinary output, generated
/// stream headers, and generated end-of-stream NAL units are each returned
/// to the engine through a different reclamation call; the recorded
/// category is what selects the matching call when the native buffer is
/// released.
#[derive(Debug)]
pub struct HevcPacket {
    data: Vec<u8>,
    slice_type: u32,
    flags: u32,
    ty: DropType,
}

impl HevcPacket {
    /// The slice-type tag this packet carries, as seen by specifications.
    pub closed spec fn spec_slice_type(&self) -> u32 {
        self.slice_type
    }

    /// The buffer flags this packet carries, as seen by specifications.
    pub closed spec fn spec_flags(&self) -> u32 {
        self.flags
    }

    /// Whether this packet was acquired from stream-header generation, as
    /// seen by specifications.
    pub closed spec fn spec_is_headers(&self) -> bool {
        self.ty is Headers
    }

    /// Whether this packet was acquired from end-of-stream NAL generation,
    /// as seen by specifications.
    pub closed spec fn spec_is_eos_nal(&self) -> bool {
        self.ty is Eos
    }

    /// Wraps one ordinary output buffer: its encoded bytes, the native
    /// slice-type tag, and the native buffer flags.
    pub fn new(data: Vec<u8>, slice_type: u32, flags: u32) -> (r: HevcPacket)
        ensures
            r.spec_bytes() == data@,
            r.spec_slice_type() == slice_type,
            r.spec_flags() == flags,
            r.spec_is_eos() == (flags & EB_BUFFERFLAG_EOS != 0),
            !r.spec_is_headers(),
            !r.spec_is_eos_nal(),
    {
        HevcPacket { data, slice_type, flags, ty: DropType::Output }
    }

    /// Wraps one generated stream-header buffer (a VPS/SPS/PPS NAL unit),
    /// which is reclaimed through the header-release call rather than the
    /// ordinary output-release call.
    pub fn new_headers(data: Vec<u8>) -> (r: HevcPacket)
        ensures
            r.spec_bytes() == data@,
            r.spec_slice_type() == EB_INVALID_PICTURE,
            r.spec_flags() == 0u32,
            !r.spec_is_eos(),
            r.spec_is_headers(),
            !r.spec_is_eos_nal(),
    {
        proof {
            assert(0u32 & 1u32 == 0u32) by (bit_vector);
        }
        HevcPacket { data, slice_type: EB_INVALID_PICTURE, flags: 0, ty: DropType::Headers }
    }

    /// Wraps one generated end-of-stream NAL buffer, which is reclaimed
    /// through the EOS-release call rather than the ordinary output-release
    /// call.
    pub fn new_eos(data: Vec<u8>) -> (r: HevcPacket)
        ensures
            r.spec_bytes() == data@,
            r.spec_slice_type() == EB_INVALID_PICTURE,
            r.spec_flags() == EB_BUFFERFLAG_EOS,
            r.spec_is_eos(),
            !r.spec_is_headers(),
            r.spec_is_eos_nal(),
    {
        proof {
            assert(1u32 & 1u32 != 0u32) by (bit_vector);
        }
        HevcPacket {
            data,
            slice_type: EB_INVALID_PICTURE,
            flags: EB_BUFFERFLAG_EOS,
            ty: DropType::Eos,
        }
    }

    /// The type of NAL unit contained, mapped from the native tag.
    pub fn nalu_type(&self) -> (r: NaluType)
        ensures
            r == nalu_type_of(self.spec_slice_type()),
    {
        match self.slice_type {
            EB_B_PICTURE => NaluType::B,
            EB_P_PICTURE => NaluType::P,
            EB_I_PICTURE => NaluType::I,
            EB_IDR_PICTURE => NaluType::IDR,
            _ => NaluType::Unknown,
        }
    }
}

impl Packet for HevcPacket {
    closed spec fn spec_bytes(&self) -> Seq<u8> {
        self.data@
    }

    closed spec fn spec_is_eos(&self) -> bool {
        self.flags & EB_BUFFERFLAG_EOS != 0
    }

    fn as_bytes(&self) -> &[u8] {
        self.data.as_slice()
    }

    fn is_eos(&self) -> bool {
        self.flags & EB_BUFFERFLAG_EOS != 0
    }
}

} // verus!
