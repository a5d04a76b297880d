use std::io::Cursor;

use image::codecs::gif::GifEncoder;
use image::{DynamicImage, Frame, ImageFormat, RgbaImage};
use jpg2ascii::buffer::PixelBuffer;
use jpg2ascii::config::{Config, Filter};
use jpg2ascii::pipeline::{
    convert_bytes_to_ascii, convert_bytes_to_ascii_frames, convert_gif_bytes_to_ascii_frames,
    convert_image_to_ascii, convert_image_to_ascii_lines, render_frames, render_resized,
    ConvertError,
};

const LEVELS: [u8; 10] = [0, 28, 57, 85, 113, 142, 170, 198, 227, 255];

fn gray_image(rows: &[&str]) -> RgbaImage {
    let charset: Vec<char> = " .:-=+*#%@".chars().collect();
    let w = rows[0].chars().count() as u32;
    let mut data = Vec::new();
    for row in rows {
        for c in row.chars() {
            let g = LEVELS[charset.iter().position(|&x| x == c).unwrap()];
            data.extend_from_slice(&[g, g, g, 255]);
        }
    }
    RgbaImage::from_raw(w, rows.len() as u32, data).unwrap()
}

fn png_bytes(img: RgbaImage) -> Vec<u8> {
    let mut out = Vec::new();
    DynamicImage::ImageRgba8(img)
        .write_to(&mut Cursor::new(&mut out), ImageFormat::Png)
        .unwrap();
    out
}

fn gif_bytes(frames: Vec<RgbaImage>) -> Vec<u8> {
    let mut out = Vec::new();
    {
        let mut enc = GifEncoder::new(&mut out);
        enc.encode_frames(frames.into_iter().map(Frame::new)).unwrap();
    }
    out
}

// The 8x3 multi-color fixture image is not part of this crate. This is a
// synthetic stand-in: an 8x3 image whose pixels are the gray levels that the
// default charset maps to the recorded grid, so the grid must come back
// exactly through PNG decoding, same-size resampling and rendering.
#[test]
fn snapshot_8x3_multi_colors_width8_aspect1() {
    let mut cfg = Config::default();
    cfg.width = Some(8);
    cfg.aspect = 1000;
    let bytes = png_bytes(gray_image(&["+@%#%=**", ":%###=+-", "-+*=:+.:"]));
    let out = convert_bytes_to_ascii(&bytes, &cfg).unwrap();
    assert_eq!(out, "+@%#%=**\n:%###=+-\n-+*=:+.:");
}

#[test]
fn image_is_resampled_to_target_grid() {
    let mut cfg = Config::default();
    cfg.width = Some(3);
    cfg.aspect = 1000;
    let white = RgbaImage::from_pixel(12, 8, image::Rgba([255, 255, 255, 255]));
    let img = PixelBuffer::new(12, 8, white.into_raw()).unwrap();
    let lines = convert_image_to_ascii_lines(&img, &cfg);
    assert_eq!(lines, vec!["@@@".to_string(), "@@@".to_string()]);
    assert_eq!(convert_image_to_ascii(&img, &cfg), "@@@\n@@@");
}

#[test]
fn undecodable_bytes_are_an_error() {
    let cfg = Config::default();
    let r = convert_bytes_to_ascii(&[1, 2, 3, 4, 5], &cfg);
    assert!(matches!(r, Err(ConvertError::Decode(_))));
    assert!(convert_gif_bytes_to_ascii_frames(&[1, 2, 3], &cfg).is_err());
    assert!(convert_bytes_to_ascii_frames(&[1, 2, 3], &cfg).is_err());
}

#[test]
fn animation_yields_one_frame_per_source_frame() {
    let mut cfg = Config::default();
    cfg.width = Some(2);
    cfg.aspect = 1000;
    let bytes = gif_bytes(vec![gray_image(&["  ", "  "]), gray_image(&["@@", "@@"]), gray_image(&[" @", "@ "])]);
    let frames = convert_gif_bytes_to_ascii_frames(&bytes, &cfg).unwrap();
    assert_eq!(frames.len(), 3);
    assert_eq!(frames[0], "  \n  ");
    assert_eq!(frames[1], "@@\n@@");
    let again = convert_bytes_to_ascii_frames(&bytes, &cfg).unwrap();
    assert_eq!(again, frames);
}

#[test]
fn still_payload_falls_back_to_one_frame() {
    let mut cfg = Config::default();
    cfg.width = Some(2);
    cfg.aspect = 1000;
    let bytes = png_bytes(gray_image(&["@ ", " @"]));
    assert!(convert_gif_bytes_to_ascii_frames(&bytes, &cfg).is_err());
    let frames = convert_bytes_to_ascii_frames(&bytes, &cfg).unwrap();
    assert_eq!(frames, vec!["@ \n @".to_string()]);
}

#[test]
fn pixel_buffer_checks_its_length() {
    assert!(PixelBuffer::new(2, 2, vec![0; 16]).is_some());
    assert!(PixelBuffer::new(2, 2, vec![0; 15]).is_none());
    assert!(PixelBuffer::new(0, 5, Vec::new()).is_some());
}

#[test]
fn frames_render_independently_in_order() {
    let mut cfg = Config::default();
    cfg.width = Some(1);
    cfg.aspect = 1000;
    let black = PixelBuffer::new(1, 1, vec![0, 0, 0, 255]).unwrap();
    let white = PixelBuffer::new(1, 1, vec![255, 255, 255, 255]).unwrap();
    let clear = PixelBuffer::new(1, 1, vec![255, 255, 255, 0]).unwrap();
    let out = render_frames(&vec![white, black, clear], &cfg);
    assert_eq!(out, vec!["@".to_string(), " ".to_string(), " ".to_string()]);
}

#[test]
fn resized_buffer_renders_on_the_source_grid() {
    let cfg = Config::default();
    // A 160 by 8 source gets an 80 by 2 grid.
    let resized: Vec<u8> = (0..160).flat_map(|i| if i % 2 == 0 { [0, 0, 0, 255] } else { [255, 255, 255, 255] }).collect();
    let lines = render_resized(160, 8, &resized, &cfg);
    assert_eq!(lines.len(), 2);
    assert_eq!(lines[0], " @".repeat(40));
    assert_eq!(lines[1], " @".repeat(40));
}

#[test]
fn smooth_filters_resample_to_the_same_grid() {
    for filter in [Filter::CatmullRom, Filter::Gaussian, Filter::Lanczos3] {
        let mut cfg = Config::default();
        cfg.width = Some(3);
        cfg.aspect = 1000;
        cfg.filter = filter;
        let white = RgbaImage::from_pixel(12, 8, image::Rgba([255, 255, 255, 255]));
        let img = PixelBuffer::new(12, 8, white.into_raw()).unwrap();
        assert_eq!(convert_image_to_ascii(&img, &cfg), "@@@\n@@@");
    }
}
