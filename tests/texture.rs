use image::ImageEncoder;
use quad_render::texture::{decode_texture, pad_texture, plan_texture_write, DecodedImage};

fn encode_png(rgba: &[u8], width: u32, height: u32) -> Vec<u8> {
    let mut out: Vec<u8> = Vec::new();
    image::codecs::png::PngEncoder::new(&mut out)
        .write_image(rgba, width, height, image::ColorType::Rgba8)
        .unwrap();
    out
}

fn image(width: u32, height: u32) -> DecodedImage {
    let mut rgba = Vec::new();
    for k in 0..(width * height) {
        rgba.extend_from_slice(&[k as u8, 10 + k as u8, 20 + k as u8, 200]);
    }
    DecodedImage { width, height, rgba }
}

#[test]
fn decode_png_gives_rgba() {
    let texels: Vec<u8> = vec![1, 2, 3, 4, 5, 6, 7, 8, 9, 10, 11, 12];
    let png = encode_png(&texels, 3, 1);
    let img = decode_texture(&png).unwrap();
    assert_eq!(img.width, 3);
    assert_eq!(img.height, 1);
    assert_eq!(img.rgba, texels);
}

#[test]
fn decode_rejects_non_png() {
    assert!(decode_texture(&vec![1, 2, 3, 4]).is_none());
    assert!(decode_texture(&vec![]).is_none());
}

#[test]
fn decode_twice_gives_same_bytes() {
    let texels: Vec<u8> = (0..64u8).collect();
    let png = encode_png(&texels, 4, 4);
    let a = decode_texture(&png).unwrap();
    let b = decode_texture(&png).unwrap();
    assert_eq!((a.width, a.height), (b.width, b.height));
    assert_eq!(a.rgba, b.rgba);
}

#[test]
fn pad_places_image_top_left() {
    let img = image(2, 1);
    let canvas = pad_texture(&img, 3, 2);
    assert_eq!(canvas.len(), 6);
    assert_eq!(canvas[0], [0, 10, 20, 200]);
    assert_eq!(canvas[1], [1, 11, 21, 200]);
    for p in 2..6 {
        assert_eq!(canvas[p], [0, 0, 0, 255]);
    }
}

#[test]
fn pad_second_row() {
    let img = image(2, 2);
    let canvas = pad_texture(&img, 4, 3);
    assert_eq!(canvas.len(), 12);
    assert_eq!(canvas[4], [2, 12, 22, 200]);
    assert_eq!(canvas[5], [3, 13, 23, 200]);
    assert_eq!(canvas[6], [0, 0, 0, 255]);
    assert_eq!(canvas[8], [0, 0, 0, 255]);
}

#[test]
fn texture_write_uses_image_extent() {
    let w = plan_texture_write(&image(16, 8)).unwrap();
    assert_eq!((w.width, w.height), (16, 8));
    assert_eq!(w.bytes_per_row, 64);
    assert_eq!(w.rows_per_image, 8);
}

#[test]
fn texture_write_fits_display_texture() {
    let w = plan_texture_write(&DecodedImage { width: 256, height: 256, rgba: vec![] }).unwrap();
    assert_eq!(w.bytes_per_row, 1024);
    assert!(plan_texture_write(&DecodedImage { width: 257, height: 4, rgba: vec![] }).is_none());
    assert!(plan_texture_write(&DecodedImage { width: 4, height: 300, rgba: vec![] }).is_none());
}
