use picm::display::{align_to_16, rgb_to_16bit, Image, ImageType, Palette, RGB8};

#[test]
fn rgb565_packing() {
    assert_eq!(rgb_to_16bit(RGB8 { r: 0, g: 0, b: 0 }), 0x0000);
    assert_eq!(rgb_to_16bit(RGB8 { r: 255, g: 255, b: 255 }), 0xFFFF);
    // the mid-gray palette entry
    assert_eq!(rgb_to_16bit(RGB8 { r: 153, g: 153, b: 153 }), 0x9CD3);
    assert_eq!(rgb_to_16bit(RGB8 { r: 255, g: 0, b: 0 }), 0xF800);
    assert_eq!(rgb_to_16bit(RGB8 { r: 0, g: 255, b: 0 }), 0x07E0);
    assert_eq!(rgb_to_16bit(RGB8 { r: 0, g: 0, b: 255 }), 0x001F);
}

#[test]
fn palette_holds_converted_colors() {
    let p = Palette::from_colors(vec![
        RGB8 { r: 0, g: 0, b: 0 },
        RGB8 { r: 153, g: 153, b: 153 },
        RGB8 { r: 255, g: 255, b: 255 },
    ]);
    assert_eq!(p.entries().as_slice(), &[0x0000, 0x9CD3, 0xFFFF]);
}

#[test]
fn align_rounds_up_to_16() {
    assert_eq!(align_to_16(0), 0);
    assert_eq!(align_to_16(1), 16);
    assert_eq!(align_to_16(16), 16);
    assert_eq!(align_to_16(17), 32);
    assert_eq!(align_to_16(137), 144);
}

#[test]
fn image_geometry_8bpp() {
    let img = Image::new(ImageType::_8BPP, 137, 1);
    assert_eq!(img.width, 137);
    assert_eq!(img.height, 1);
    assert_eq!(img.pitch, 144);
    assert_eq!(img.aligned_height, 16);
    assert_eq!(img.data.len(), 144 * 16);
    assert!(img.data.iter().all(|&b| b == 0));
}

#[test]
fn image_geometry_1bpp() {
    let img = Image::new(ImageType::_1BPP, 137, 3);
    assert_eq!(img.pitch, 144 / 8);
    assert_eq!(img.aligned_height, 16);
    assert_eq!(img.data.len(), 18 * 16);
}

#[test]
fn set_pixel_bytes_writes_one_row_region() {
    let mut img = Image::new(ImageType::_8BPP, 137, 4);
    let bytes = vec![9, 8, 7];
    img.set_pixel_bytes(2, 1, &bytes);
    let pitch = img.pitch as usize;
    assert_eq!(img.data[pitch + 2], 9);
    assert_eq!(img.data[pitch + 3], 8);
    assert_eq!(img.data[pitch + 4], 7);
    assert_eq!(img.data[pitch + 1], 0);
    assert_eq!(img.data[pitch + 5], 0);
    assert_eq!(img.data[2], 0);
}

#[test]
fn src_rect_is_fixed_point_16() {
    let img = Image::new(ImageType::_8BPP, 137, 4);
    let r = img.get_src_rect();
    assert_eq!(r.x, 0);
    assert_eq!(r.y, 0);
    assert_eq!(r.width, 137 << 16);
    assert_eq!(r.height, 4 << 16);
}
