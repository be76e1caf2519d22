use functor_runtime::texture::{
    apply_color_key, extension_to_format, ImageEncoding, PixelFormat, TextureData,
};

#[test]
fn checkerboard_two_by_two() {
    let t = TextureData::checkerboard_pattern(2, 2, [10, 20, 30, 40]);
    assert_eq!(t.width, 2);
    assert_eq!(t.height, 2);
    assert_eq!(t.format, PixelFormat::RGBA);
    assert_eq!(
        t.bytes,
        vec![10, 20, 30, 40, 0, 0, 0, 255, 0, 0, 0, 255, 10, 20, 30, 40]
    );
}

#[test]
fn checkerboard_three_wide() {
    let t = TextureData::checkerboard_pattern(3, 1, [1, 2, 3, 4]);
    assert_eq!(t.bytes, vec![1, 2, 3, 4, 0, 0, 0, 255, 1, 2, 3, 4]);
}

#[test]
fn checkerboard_empty() {
    let t = TextureData::checkerboard_pattern(0, 5, [1, 2, 3, 4]);
    assert!(t.bytes.is_empty());
}

#[test]
fn color_key_clears_magenta_and_cyan() {
    let mut pixels = vec![
        255, 0, 255, 255, // magenta
        0, 255, 255, 128, // cyan
        255, 0, 0, 255, // red
        251, 4, 251, 9, // near magenta
        9, 9, 9, 9, // past the image
    ];
    apply_color_key(&mut pixels, 2, 2);
    assert_eq!(
        pixels,
        vec![0, 0, 0, 0, 0, 0, 0, 0, 255, 0, 0, 255, 0, 0, 0, 0, 9, 9, 9, 9]
    );
}

#[test]
fn color_key_keeps_boundary_values() {
    let mut pixels = vec![250, 0, 255, 255];
    apply_color_key(&mut pixels, 1, 1);
    assert_eq!(pixels, vec![250, 0, 255, 255]);
}

#[test]
fn extensions_map_to_formats() {
    assert_eq!(extension_to_format(String::from("png")), Some(ImageEncoding::Png));
    assert_eq!(extension_to_format(String::from("PNG")), Some(ImageEncoding::Png));
    assert_eq!(extension_to_format(String::from("Gif")), Some(ImageEncoding::Gif));
    assert_eq!(extension_to_format(String::from("jpeg")), Some(ImageEncoding::Jpeg));
    assert_eq!(extension_to_format(String::from("JPG")), Some(ImageEncoding::Jpeg));
    assert_eq!(extension_to_format(String::from("bmp")), None);
    assert_eq!(extension_to_format(String::from("pngx")), None);
    assert_eq!(extension_to_format(String::new()), None);
}
