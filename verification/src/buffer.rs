//! A reusable YUV picture buffer.

use vstd::prelude::*;

use crate::{chroma_height, chroma_width, picture_matches, Picture, Plane, SubsamplingFormat};

verus! {

/// A reusable YUV picture buffer, with each of the three planes as a
/// separate `Vec<u8>` and no support for row padding.
///
/// Plane byte lengths always satisfy the subsampling table: the luma plane
/// holds `width * height` bytes, and each chroma plane holds
/// `chroma_width * chroma_height` bytes as derived from the format the
/// buffer was constructed with.
#[derive(Debug)]
pub struct YUVBuffer {
    y: Vec<u8>,
    u: Vec<u8>,
    v: Vec<u8>,
    uv_stride: u32,
    width: u32,
    height: u32,
}

/// A plane-sized vector of zero bytes, pushed one byte at a time.
fn zeroed(len: usize) -> (r: Vec<u8>)
    ensures
        r@.len() == len,
        forall|i: int| 0 <= i < len ==> r@[i] == 0u8,
{
    let mut bytes: Vec<u8> = Vec::new();
    while bytes.len() < len
        invariant
            bytes@.len() <= len,
            forall|i: int| 0 <= i < bytes@.len() ==> bytes@[i] == 0u8,
        decreases len - bytes@.len(),
    {
        bytes.push(0);
    }
    bytes
}

impl YUVBuffer {
    /// Creates a new zero-filled YUV picture with the given width, height,
    /// and subsampling format.
    pub fn new(width: u32, height: u32, format: SubsamplingFormat) -> (r: YUVBuffer)
        requires
            width * height <= u32::MAX,
        ensures
            r.spec_width() == width,
            r.spec_height() == height,
            r.spec_stride(Plane::Y) == width,
            r.spec_stride(Plane::U) == chroma_width(format, width),
            r.spec_stride(Plane::V) == chroma_width(format, width),
            r.spec_plane(Plane::Y).len() == width * height,
            r.spec_plane(Plane::U).len() == chroma_width(format, width) * chroma_height(
                format,
                height,
            ),
            r.spec_plane(Plane::V).len() == chroma_width(format, width) * chroma_height(
                format,
                height,
            ),
            forall|p: Plane, i: int|
                0 <= i < r.spec_plane(p).len() ==> r.spec_plane(p)[i] == 0u8,
    {
        let y_size: usize = (width * height) as usize;

        let uv_width: u32 = match format {
            SubsamplingFormat::Yuv400 => 0,
            SubsamplingFormat::Yuv420 => width / 2,
            SubsamplingFormat::Yuv422 => width / 2,
            SubsamplingFormat::Yuv444 => width,
        };

        let uv_height: u32 = match format {
            SubsamplingFormat::Yuv400 => 0,
            SubsamplingFormat::Yuv420 => height / 2,
            SubsamplingFormat::Yuv422 => height,
            SubsamplingFormat::Yuv444 => height,
        };

        assert(uv_width * uv_height <= width * height) by (nonlinear_arith)
            requires
                uv_width <= width,
                uv_height <= height,
        ;

        let uv_size: usize = (uv_width * uv_height) as usize;

        YUVBuffer {
            y: zeroed(y_size),
            u: zeroed(uv_size),
            v: zeroed(uv_size),
            uv_stride: uv_width,
            width,
            height,
        }
    }

    /// Gives mutable access to a plane's bytes, for filling the picture
    /// between submissions.  The other planes and the picture geometry are
    /// untouched, and a slice cannot be resized, so the plane lengths the
    /// buffer was constructed with always stand.
    pub fn as_mut_slice(&mut self, plane: Plane) -> (r: &mut [u8])
        ensures
            r@ == old(self).spec_plane(plane),
            final(self).spec_plane(plane) == final(r)@,
            forall|p: Plane| p != plane ==> final(self).spec_plane(p) == old(self).spec_plane(p),
            final(self).spec_width() == old(self).spec_width(),
            final(self).spec_height() == old(self).spec_height(),
            forall|p: Plane| final(self).spec_stride(p) == old(self).spec_stride(p),
    {
        match plane {
            Plane::Y => self.y.as_mut_slice(),
            Plane::U => self.u.as_mut_slice(),
            Plane::V => self.v.as_mut_slice(),
        }
    }
}

/// A buffer whose planes and strides follow the subsampling table — as
/// [`YUVBuffer::new`] guarantees of a fresh buffer — satisfies the picture
/// submission shape rules for the format it was built with.  The one caveat
/// is the half-height 4:2:0 format, where the rules divide the full height
/// by two after multiplying, so the height must be even for the two
/// readings to coincide.
pub proof fn lemma_fresh_buffer_matches(
    b: &YUVBuffer,
    format: SubsamplingFormat,
    width: u32,
    height: u32,
)
    requires
        b.spec_width() == width,
        b.spec_height() == height,
        b.spec_stride(Plane::Y) == width,
        b.spec_stride(Plane::U) == chroma_width(format, width),
        b.spec_stride(Plane::V) == chroma_width(format, width),
        b.spec_plane(Plane::Y).len() == width * height,
        b.spec_plane(Plane::U).len() == chroma_width(format, width) * chroma_height(
            format,
            height,
        ),
        b.spec_plane(Plane::V).len() == chroma_width(format, width) * chroma_height(
            format,
            height,
        ),
        format is Yuv420 ==> height % 2 == 0,
    ensures
        picture_matches(b, format),
{
    let cw = chroma_width(format, width);
    let ch = chroma_height(format, height);
    match format {
        SubsamplingFormat::Yuv400 => {
            assert(cw * ch == 0);
        },
        SubsamplingFormat::Yuv420 => {
            assert(ch == height as int / 2);
            assert(cw * (height as int / 2) == cw * height as int / 2) by (nonlinear_arith)
                requires
                    height % 2 == 0,
                    cw >= 0,
            ;
        },
        SubsamplingFormat::Yuv422 => {
        },
        SubsamplingFormat::Yuv444 => {
        },
    }
}

impl Picture for YUVBuffer {
    closed spec fn spec_width(&self) -> u32 {
        self.width
    }

    closed spec fn spec_height(&self) -> u32 {
        self.height
    }

    closed spec fn spec_plane(&self, plane: Plane) -> Seq<u8> {
        match plane {
            Plane::Y => self.y@,
            Plane::U => self.u@,
            Plane::V => self.v@,
        }
    }

    closed spec fn spec_stride(&self, plane: Plane) -> u32 {
        match plane {
            Plane::Y => self.width,
            Plane::U => self.uv_stride,
            Plane::V => self.uv_stride,
        }
    }

    fn width(&self) -> u32 {
        self.width
    }

    fn height(&self) -> u32 {
        self.height
    }

    fn as_slice(&self, plane: Plane) -> &[u8] {
        match plane {
            Plane::Y => self.y.as_slice(),
            Plane::U => self.u.as_slice(),
            Plane::V => self.v.as_slice(),
        }
    }

    fn stride(&self, plane: Plane) -> u32 {
        match plane {
            Plane::Y => self.width,
            Plane::U => self.uv_stride,
            Plane::V => self.uv_stride,
        }
    }
}

} // verus!
