use raytracer::framebuffer::{encode_frame, pixel_position};

#[test]
fn pixel_positions_run_row_by_row() {
    assert_eq!(pixel_position(0, 800), (0, 0));
    assert_eq!(pixel_position(799, 800), (799, 0));
    assert_eq!(pixel_position(800, 800), (0, 1));
    assert_eq!(pixel_position(479_999, 800), (799, 599));
}

#[test]
fn frame_bytes_are_rgb_then_opaque_alpha() {
    let bytes = encode_frame(&vec![[1, 2, 3], [178, 178, 178]]);
    assert_eq!(bytes, vec![1, 2, 3, 255, 178, 178, 178, 255]);
    assert!(encode_frame(&Vec::new()).is_empty());
}
