use image::codecs::gif::GifEncoder;
use image::{Delay, Frame, ImageFormat, Rgba, RgbaImage};
use status_float::sprite::{decode_sprites, gif_animation, load_gif_bytes, GifFrame, RgbaFrame};
use std::io::Cursor;

fn sample(w: u32, h: u32, seed: u8) -> RgbaImage {
    RgbaImage::from_fn(w, h, |x, y| Rgba([seed, x as u8, y as u8, 255]))
}

fn png_bytes(img: &RgbaImage) -> Vec<u8> {
    let mut out = Cursor::new(Vec::new());
    img.write_to(&mut out, ImageFormat::Png).unwrap();
    out.into_inner()
}

fn gif_bytes(frames: &[(RgbaImage, u32)]) -> Vec<u8> {
    let mut out = Vec::new();
    {
        let mut enc = GifEncoder::new(&mut out);
        for (img, ms) in frames {
            enc.encode_frame(Frame::from_parts(img.clone(), 0, 0, Delay::from_numer_denom_ms(*ms, 1)))
                .unwrap();
        }
    }
    out
}

#[test]
fn sprites_decode_and_skip_broken_frames() {
    let a = png_bytes(&sample(3, 2, 7));
    let b = png_bytes(&sample(4, 5, 9));
    let junk: &[u8] = b"not an image";
    let frames: Vec<&[u8]> = vec![&a, junk, &b];
    let out = decode_sprites(&frames);
    assert_eq!(out.len(), 2);
    assert_eq!((out[0].width, out[0].height), (3, 2));
    assert_eq!(out[0].rgba, sample(3, 2, 7).into_raw());
    assert_eq!((out[1].width, out[1].height), (4, 5));
    assert_eq!(out[1].rgba, sample(4, 5, 9).into_raw());
    assert!(decode_sprites(&[]).is_empty());
}

#[test]
fn gif_decodes_with_first_delay() {
    let bytes = gif_bytes(&[(sample(2, 2, 1), 100), (sample(2, 2, 2), 200)]);
    let anim = load_gif_bytes(&bytes).expect("decodes");
    assert_eq!(anim.frames.len(), 2);
    let (n, d) = (anim.delay_num, anim.delay_den);
    assert_eq!(n as u64 * 1, 100 * d as u64);
    assert_eq!((anim.frames[1].image.width, anim.frames[1].image.height), (2, 2));
    assert_eq!(anim.frames[0].image.rgba.len(), 16);
    assert_ne!(anim.frames[0].image.rgba, anim.frames[1].image.rgba);
}

#[test]
fn broken_gif_gives_nothing() {
    assert!(load_gif_bytes(b"GIF89a-broken").is_none());
    assert!(load_gif_bytes(&[]).is_none());
}

#[test]
fn empty_animation_is_none() {
    assert!(gif_animation(vec![]).is_none());
    let f = GifFrame { delay_num: 70, delay_den: 1, image: RgbaFrame { width: 1, height: 1, rgba: vec![1, 2, 3, 4] } };
    let g = GifFrame { delay_num: 30, delay_den: 1, image: RgbaFrame { width: 1, height: 1, rgba: vec![5, 6, 7, 8] } };
    let a = gif_animation(vec![f, g]).unwrap();
    assert_eq!((a.delay_num, a.delay_den), (70, 1));
    assert_eq!(a.frames.len(), 2);
    assert_eq!(a.frames[1].image.rgba, vec![5, 6, 7, 8]);
}

#[test]
fn unknown_format_is_skipped() {
    // A plausible header with no magic bytes of a built-in format.
    let bogus: &[u8] = &[0, 1, 2, 3, 4, 5, 6, 7, 8, 9, 10, 11, 12, 13, 14, 15];
    let frames: Vec<&[u8]> = vec![bogus];
    assert!(decode_sprites(&frames).is_empty());
}
