use ray_tracing_in_one_weekend::frame::{pixel_index, FrameBuffer};

#[test]
fn bottom_row_is_stored_last() {
    // 4 columns, 3 rows: image row 0 is the lowest row of the picture.
    assert_eq!(pixel_index(4, 3, 0, 2), 0);
    assert_eq!(pixel_index(4, 3, 3, 2), 3);
    assert_eq!(pixel_index(4, 3, 1, 1), 5);
    assert_eq!(pixel_index(4, 3, 0, 0), 8);
    assert_eq!(pixel_index(4, 3, 3, 0), 11);
}

#[test]
fn every_pixel_has_its_own_slot() {
    let (w, h) = (5usize, 4usize);
    let mut seen = vec![false; w * h];
    for j in 0..h {
        for i in 0..w {
            let k = pixel_index(w, h, i, j);
            assert!(k < w * h);
            assert!(!seen[k]);
            seen[k] = true;
        }
    }
    assert!(seen.iter().all(|s| *s));
}

#[test]
fn new_frame_is_black() {
    let f = FrameBuffer::new(3, 2).unwrap();
    assert_eq!(f.width(), 3);
    assert_eq!(f.height(), 2);
    assert_eq!(f.pixels(), &vec![0u32; 6]);
}

#[test]
fn empty_frame() {
    let f = FrameBuffer::new(0, 7).unwrap();
    assert!(f.pixels().is_empty());
}

#[test]
fn frame_too_large_is_refused() {
    assert!(FrameBuffer::new(usize::MAX, 2).is_none());
    assert!(FrameBuffer::new(2, usize::MAX / 2 + 1).is_none());
}

#[test]
fn set_pixel_writes_one_slot() {
    let mut f = FrameBuffer::new(3, 2).unwrap();
    f.set_pixel(2, 0, 0xABCDEF);
    assert_eq!(f.pixels(), &vec![0, 0, 0, 0, 0, 0xABCDEF]);
    f.set_pixel(0, 1, 7);
    assert_eq!(f.pixels(), &vec![7, 0, 0, 0, 0, 0xABCDEF]);
}

#[test]
fn write_row_fills_one_row_left_to_right() {
    let mut f = FrameBuffer::new(3, 3).unwrap();
    f.write_row(0, &vec![1, 2, 3]);
    f.write_row(2, &vec![7, 8, 9]);
    assert_eq!(f.pixels(), &vec![7, 8, 9, 0, 0, 0, 1, 2, 3]);
    f.write_row(0, &vec![4, 5, 6]);
    assert_eq!(f.pixels(), &vec![7, 8, 9, 0, 0, 0, 4, 5, 6]);
}
