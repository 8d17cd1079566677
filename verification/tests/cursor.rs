use rcore_gui::cursor::{cursor_image, cursor_pixels};

#[test]
fn white_pixels_become_transparent() {
    assert_eq!(
        cursor_pixels(&[255, 255, 255, 1, 2, 3]),
        vec![255, 255, 255, 0, 1, 2, 3, 0xff]
    );
}

#[test]
fn short_last_pixel_is_opaque() {
    assert_eq!(cursor_pixels(&[255, 255, 255, 255, 255]), vec![255, 255, 255, 0, 255, 255, 0xff]);
    assert_eq!(cursor_pixels(&[9]), vec![9, 0xff]);
    assert_eq!(cursor_pixels(&[]), Vec::<u8>::new());
}

#[test]
fn output_length_grows_by_one_per_pixel() {
    for n in 0..20usize {
        let data: Vec<u8> = (0..n as u8).collect();
        assert_eq!(cursor_pixels(&data).len(), n + (n + 2) / 3);
    }
}

fn bmp_2x1(p0: [u8; 3], p1: [u8; 3]) -> Vec<u8> {
    let mut b = Vec::new();
    b.extend(b"BM");
    b.extend(62u32.to_le_bytes());
    b.extend([0u8; 4]);
    b.extend(54u32.to_le_bytes());
    b.extend(40u32.to_le_bytes());
    b.extend(2u32.to_le_bytes());
    b.extend(1i32.to_le_bytes());
    b.extend(1u16.to_le_bytes());
    b.extend(24u16.to_le_bytes());
    b.extend(0u32.to_le_bytes());
    b.extend(8u32.to_le_bytes());
    b.extend(2835u32.to_le_bytes());
    b.extend(2835u32.to_le_bytes());
    b.extend(0u32.to_le_bytes());
    b.extend(0u32.to_le_bytes());
    b.extend(p0);
    b.extend(p1);
    b.extend([0u8; 2]);
    b
}

#[test]
fn cursor_from_a_bitmap() {
    let bmp = bmp_2x1([255, 255, 255], [0, 0, 255]);
    assert_eq!(
        cursor_image(&bmp),
        Some(vec![255, 255, 255, 0, 0, 0, 255, 0xff, 0, 0, 0xff])
    );
}

#[test]
fn not_a_bitmap_gives_no_cursor() {
    assert_eq!(cursor_image(&[1, 2, 3]), None);
    let mut bmp = bmp_2x1([1, 1, 1], [2, 2, 2]);
    bmp[28] = 16; // 16 bits per pixel does not match 24-bit colour
    assert_eq!(cursor_image(&bmp), None);
}
