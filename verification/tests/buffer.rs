use svt::{Picture, Plane, SubsamplingFormat, YUVBuffer};

#[test]
fn plane_sizes_yuv420() {
    let buf = YUVBuffer::new(800, 600, SubsamplingFormat::Yuv420);
    assert_eq!(buf.width(), 800);
    assert_eq!(buf.height(), 600);
    assert_eq!(buf.as_slice(Plane::Y).len(), 800 * 600);
    assert_eq!(buf.as_slice(Plane::U).len(), 120000);
    assert_eq!(buf.as_slice(Plane::V).len(), 120000);
    assert_eq!(buf.stride(Plane::Y), 800);
    assert_eq!(buf.stride(Plane::U), 400);
    assert_eq!(buf.stride(Plane::V), 400);
}

#[test]
fn plane_sizes_yuv400() {
    let buf = YUVBuffer::new(800, 600, SubsamplingFormat::Yuv400);
    assert_eq!(buf.as_slice(Plane::Y).len(), 480000);
    assert_eq!(buf.as_slice(Plane::U).len(), 0);
    assert_eq!(buf.as_slice(Plane::V).len(), 0);
    assert_eq!(buf.stride(Plane::U), 0);
}

#[test]
fn plane_sizes_yuv422() {
    let buf = YUVBuffer::new(800, 600, SubsamplingFormat::Yuv422);
    assert_eq!(buf.as_slice(Plane::Y).len(), 480000);
    assert_eq!(buf.as_slice(Plane::U).len(), 400 * 600);
    assert_eq!(buf.as_slice(Plane::V).len(), 400 * 600);
    assert_eq!(buf.stride(Plane::U), 400);
}

#[test]
fn plane_sizes_yuv444() {
    let buf = YUVBuffer::new(800, 600, SubsamplingFormat::Yuv444);
    assert_eq!(buf.as_slice(Plane::Y).len(), 480000);
    assert_eq!(buf.as_slice(Plane::U).len(), 480000);
    assert_eq!(buf.as_slice(Plane::V).len(), 480000);
    assert_eq!(buf.stride(Plane::U), 800);
}

#[test]
fn plane_sizes_odd_dimensions() {
    // Chroma dimensions round down in the subsampled formats.
    let buf = YUVBuffer::new(11, 7, SubsamplingFormat::Yuv420);
    assert_eq!(buf.as_slice(Plane::Y).len(), 77);
    assert_eq!(buf.as_slice(Plane::U).len(), 5 * 3);
    assert_eq!(buf.stride(Plane::U), 5);
}

#[test]
fn fresh_buffer_is_zero_filled() {
    let buf = YUVBuffer::new(64, 48, SubsamplingFormat::Yuv420);
    assert!(buf.as_slice(Plane::Y).iter().all(|b| *b == 0));
    assert!(buf.as_slice(Plane::U).iter().all(|b| *b == 0));
    assert!(buf.as_slice(Plane::V).iter().all(|b| *b == 0));
}

#[test]
fn mutating_one_plane_leaves_the_others() {
    let mut buf = YUVBuffer::new(4, 2, SubsamplingFormat::Yuv420);
    {
        let y = buf.as_mut_slice(Plane::Y);
        y[0] = 17;
        y[7] = 42;
    }
    {
        let u = buf.as_mut_slice(Plane::U);
        u[1] = 9;
    }
    assert_eq!(buf.as_slice(Plane::Y)[0], 17);
    assert_eq!(buf.as_slice(Plane::Y)[7], 42);
    assert_eq!(buf.as_slice(Plane::U), &[0, 9]);
    assert!(buf.as_slice(Plane::V).iter().all(|b| *b == 0));
}

#[test]
fn filled_length_sums_the_planes() {
    let buf = YUVBuffer::new(800, 600, SubsamplingFormat::Yuv420);
    assert_eq!(svt::filled_length(&buf), 480000 + 120000 + 120000);

    let buf = YUVBuffer::new(800, 600, SubsamplingFormat::Yuv400);
    assert_eq!(svt::filled_length(&buf), 480000);
}
