//! A safe, session-oriented front end for the SVT family of video encoders.
//!
//! The native engines consume YUV pictures and produce encoded packets
//! asynchronously.  This crate holds the parts of that interaction that are
//! plain data and logic: picture-buffer geometry, the staged encoder
//! configuration with its native field encodings, the result-code taxonomy,
//! the session state machine (accepting pictures, flushing, draining), and
//! the packet metadata accessors.  The raw calls into a native engine are
//! the embedding's concern: each engine-facing step of the library builds
//! the record the native call is handed and takes the call's outcome back
//! as plain values.  Everything here is specified and verified.

use vstd::prelude::*;

mod buffer;
pub use buffer::YUVBuffer;

pub mod error;
pub use error::Error;
use error::{classified, EB_ERROR_NONE, EB_NO_ERROR_EMPTY_QUEUE};

pub mod av1;

pub mod hevc;

verus! {

/// The chroma subsampling format of a YUV picture.
#[derive(Debug, Copy, Clone, PartialEq, Eq, Structural)]
pub enum SubsamplingFormat {
    /// 4:0:0 Monochrome (with no chroma planes).
    Yuv400,
    /// 4:2:0 chroma subsampling.
    ///
    /// Each chroma plane is half the width and half the height of the luma
    /// plane.
    ///
    /// This is the most common format for video.
    Yuv420,
    /// 4:2:2 chroma subsampling.
    ///
    /// Each chroma plane is half the width of the luma plane, but the same
    /// height.
    Yuv422,
    /// 4:4:4 chroma subsampling.
    ///
    /// The chroma planes are the same size as the luma plane.
    Yuv444,
}

/// A plane of a YUV picture.
#[derive(Debug, Copy, Clone, PartialEq, Eq, Structural)]
pub enum Plane {
    /// The luma plane.
    Y,
    /// The first chroma plane.
    U,
    /// The second chroma plane.
    V,
}

/// The width in pixels of each chroma plane of a picture `width` pixels wide,
/// as the subsampling format prescribes.
pub open spec fn chroma_width(format: SubsamplingFormat, width: u32) -> int {
    match format {
        SubsamplingFormat::Yuv400 => 0,
        SubsamplingFormat::Yuv420 => width as int / 2,
        SubsamplingFormat::Yuv422 => width as int / 2,
        SubsamplingFormat::Yuv444 => width as int,
    }
}

/// The height in pixels of each chroma plane of a picture `height` pixels
/// tall, as the subsampling format prescribes.
pub open spec fn chroma_height(format: SubsamplingFormat, height: u32) -> int {
    match format {
        SubsamplingFormat::Yuv400 => 0,
        SubsamplingFormat::Yuv420 => height as int / 2,
        SubsamplingFormat::Yuv422 => height as int,
        SubsamplingFormat::Yuv444 => height as int,
    }
}

/// A YUV picture, used as an encoder input frame.
///
/// Implementing this trait allows callers to provide their own data
/// structures to the encoder. For a ready-made implementation, see
/// [`YUVBuffer`].
pub trait Picture {
    /// The width of the picture in pixels, as seen by specifications.
    spec fn spec_width(&self) -> u32;

    /// The height of the picture in pixels, as seen by specifications.
    spec fn spec_height(&self) -> u32;

    /// The bytes of a plane, as seen by specifications.
    spec fn spec_plane(&self, plane: Plane) -> Seq<u8>;

    /// The stride of a plane, as seen by specifications.
    spec fn spec_stride(&self, plane: Plane) -> u32;

    /// The width of the picture in pixels.
    fn width(&self) -> (r: u32)
        ensures
            r == self.spec_width(),
    ;

    /// The height of the picture in pixels.
    fn height(&self) -> (r: u32)
        ensures
            r == self.spec_height(),
    ;

    /// The raw bytes of a plane. The size depends on the chroma subsampling
    /// format. For the Y plane, it is always `stride` * `height` bytes.
    fn as_slice(&self, plane: Plane) -> (r: &[u8])
        ensures
            r@ == self.spec_plane(plane),
    ;

    /// The stride, or row width, of a plane. Stride affects the number of
    /// bytes used to store a plane, but not the size of the picture in
    /// pixels.
    fn stride(&self, plane: Plane) -> (r: u32)
        ensures
            r == self.spec_stride(plane),
    ;
}

/// Whether a picture's per-plane byte lengths satisfy the stride and height
/// rules for the given subsampling format.  Submitting a picture that
/// violates this is a caller contract violation, so picture submission
/// demands it as a precondition.
pub open spec fn picture_matches<Q: Picture>(picture: &Q, format: SubsamplingFormat) -> bool {
    let h = picture.spec_height() as int;
    let u_len = picture.spec_plane(Plane::U).len() as int;
    let v_len = picture.spec_plane(Plane::V).len() as int;
    let u_stride = picture.spec_stride(Plane::U) as int;
    let v_stride = picture.spec_stride(Plane::V) as int;
    &&& picture.spec_plane(Plane::Y).len() == picture.spec_stride(Plane::Y) * h
    &&& match format {
        SubsamplingFormat::Yuv400 => u_len == 0 && v_len == 0,
        SubsamplingFormat::Yuv420 => u_len == u_stride * h / 2 && v_len == v_stride * h / 2,
        SubsamplingFormat::Yuv422 | SubsamplingFormat::Yuv444 => u_len == u_stride * h && v_len
            == v_stride * h,
    }
}

/// The total filled byte length submitted with a picture: the sum of its
/// three plane lengths, as the engine's input record reports it.
pub fn filled_length<Q: Picture>(picture: &Q) -> (r: u32)
    requires
        picture.spec_plane(Plane::Y).len() + picture.spec_plane(Plane::U).len()
            + picture.spec_plane(Plane::V).len() <= u32::MAX,
    ensures
        r == picture.spec_plane(Plane::Y).len() + picture.spec_plane(Plane::U).len()
            + picture.spec_plane(Plane::V).len(),
{
    let y = picture.as_slice(Plane::Y);
    let u = picture.as_slice(Plane::U);
    let v = picture.as_slice(Plane::V);

    (y.len() + u.len() + v.len()) as u32
}

/// A packet of encoded data output by the encoder.
pub trait Packet {
    /// The encoded bytes, as seen by specifications.
    spec fn spec_bytes(&self) -> Seq<u8>;

    /// Whether this packet ends the stream, as seen by specifications.
    spec fn spec_is_eos(&self) -> bool;

    /// Access the encoded bytes.
    fn as_bytes(&self) -> (r: &[u8])
        ensures
            r@ == self.spec_bytes(),
    ;

    /// Whether this packet is the last one in the stream.
    fn is_eos(&self) -> (r: bool)
        ensures
            r == self.spec_is_eos(),
    ;
}

/// An encoder session generates a compressed video bitstream.
///
/// A session moves through the states `Ready` (accepting pictures),
/// `Finishing` (the end-of-stream input has been submitted and only the
/// drain remains), and finally `Closed` when the session value is dropped.
/// Picture submission is permitted only while `Ready`, and [`Encoder::finish`]
/// moves the session to `Finishing`.
///
/// The engine itself runs outside this library, so each protocol step takes
/// the engine's answer as an input: the result code of the corresponding
/// native call, and for packet retrieval also the output buffer the engine
/// filled, carried over as plain values.  Each step pins what it does with
/// every possible answer — codes are classified through the fixed taxonomy
/// ([`crate::error::classified`]), and the stream of handed-out packets
/// ends at the first one whose end-of-stream flag is set, after which no
/// further packet is returned.
pub trait Encoder<P: Packet> {
    /// Whether `finish` has been called, as seen by specifications.
    spec fn finishing(&self) -> bool;

    /// Whether the end-of-stream packet has already been handed out, as seen
    /// by specifications.
    spec fn drained(&self) -> bool;

    /// The subsampling format the session was committed with, as seen by
    /// specifications.
    spec fn format(&self) -> SubsamplingFormat;

    /// Accepts the engine's verdict on one picture submission.  The picture
    /// must have the chroma subsampling layout the encoder was configured
    /// with, and `code` is what the native send-picture call returned when
    /// handed the input record the session builds for the same `picture`,
    /// `pts` and `force_keyframe` (the plane data itself goes to the engine
    /// zero-copy).  The result is exactly that code classified: success for
    /// zero, the taxonomy's error otherwise.  The caller retains ownership
    /// of the picture buffer regardless of the outcome.
    fn send_picture<Q: Picture>(&self, picture: &Q, pts: i64, force_keyframe: bool, code: i32) -> (r: Result<
        (),
        Error,
    >)
        requires
            !self.finishing(),
            picture_matches(picture, self.format()),
        ensures
            r == classified(code),
    ;

    /// Moves the session to `Finishing`.  `code` is what the native
    /// send-picture call returned when handed the synthetic end-of-stream
    /// input the session builds (no payload, the end-of-stream buffer
    /// flag), and the result is exactly that code classified.  Callers must
    /// call this exactly once per session; on an error the session is still
    /// destructible but should not be used further.
    fn finish(&mut self, code: i32) -> (r: Result<(), Error>)
        requires
            !old(self).finishing(),
        ensures
            r == classified(code),
            final(self).finishing(),
            !final(self).drained(),
            final(self).format() == old(self).format(),
    ;

    /// Accepts the engine's answer to one packet poll: `code` is what the
    /// native retrieval call returned, and `packet` is the output buffer it
    /// filled on success, carried over as plain values.
    ///
    /// The zero code hands that packet out; the empty-queue sentinel is the
    /// distinguished non-error answer "no packet yet"; any other code is
    /// the classified error.  The first packet handed out whose
    /// end-of-stream flag is set terminates the stream: the session is then
    /// drained and every further poll answers with an absent packet.
    /// Blocking retrieval (`wait`) is for the drain after
    /// [`Encoder::finish`]; that the drain eventually reaches the
    /// end-of-stream packet is the engine's flush guarantee.
    fn get_packet(&mut self, wait: bool, code: i32, packet: Option<P>) -> (r: Result<
        Option<P>,
        Error,
    >)
        requires
            wait ==> old(self).finishing(),
            packet is Some <==> code == EB_ERROR_NONE,
        ensures
            final(self).finishing() == old(self).finishing(),
            final(self).format() == old(self).format(),
            old(self).drained() ==> r == Ok::<Option<P>, Error>(None) && final(self).drained(),
            !old(self).drained() ==> {
                &&& (code == EB_ERROR_NONE ==> r == Ok::<Option<P>, Error>(packet))
                &&& (code == EB_NO_ERROR_EMPTY_QUEUE ==> r == Ok::<Option<P>, Error>(None))
                &&& (code != EB_ERROR_NONE && code != EB_NO_ERROR_EMPTY_QUEUE ==> (match r {
                    Err(e) => Result::<(), Error>::Err(e) == classified(code),
                    Ok(_) => false,
                }))
                &&& final(self).drained() == (match r {
                    Ok(Some(p)) => p.spec_is_eos(),
                    _ => false,
                })
            },
    ;
}

} // verus!
