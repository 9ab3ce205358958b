use termview::pixel::PixelBuffer;

#[test]
fn a_new_buffer_is_transparent_black() {
    let buf = PixelBuffer::new(3, 2);
    assert_eq!(buf.width(), 3);
    assert_eq!(buf.height(), 2);
    for y in 0..2 {
        for x in 0..3 {
            assert_eq!(buf.get_pixel(x, y), (0, 0, 0, 0));
        }
    }
}

#[test]
fn put_pixel_changes_one_pixel_only() {
    let mut buf = PixelBuffer::new(3, 2);
    buf.put_pixel(1, 1, (10, 20, 30, 40));
    assert_eq!(buf.get_pixel(1, 1), (10, 20, 30, 40));
    assert_eq!(buf.get_pixel(0, 0), (0, 0, 0, 0));
    assert_eq!(buf.get_pixel(2, 1), (0, 0, 0, 0));
    buf.put_pixel(0, 0, (1, 2, 3, 4));
    assert_eq!(buf.get_pixel(0, 0), (1, 2, 3, 4));
    assert_eq!(buf.get_pixel(1, 1), (10, 20, 30, 40));
}

#[test]
fn from_rgba_lays_pixels_out_row_major() {
    let bytes: Vec<u8> = vec![
        1, 2, 3, 4, 5, 6, 7, 8, // first row, two pixels
        9, 10, 11, 12, 13, 14, 15, 16, // second row
    ];
    let buf = PixelBuffer::from_rgba(2, 2, bytes.clone());
    assert_eq!(buf.get_pixel(0, 0), (1, 2, 3, 4));
    assert_eq!(buf.get_pixel(1, 0), (5, 6, 7, 8));
    assert_eq!(buf.get_pixel(0, 1), (9, 10, 11, 12));
    assert_eq!(buf.get_pixel(1, 1), (13, 14, 15, 16));
    assert_eq!(buf.into_raw(), bytes);
}
