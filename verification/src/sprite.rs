//! Decoding sprite animations: the built-in frames and a user GIF.
//! Decoding itself is done by the `image` crate; this module fixes what is
//! handed to it and what is kept of the result.

use image::AnimationDecoder;
use vstd::prelude::*;

verus! {

/// One decoded frame: width, height, and RGBA bytes row by row.
pub struct RgbaFrame {
    pub width: u32,
    pub height: u32,
    pub rgba: Vec<u8>,
}

/// A frame as plain values.
pub open spec fn frame_view(f: RgbaFrame) -> (u32, u32, Seq<u8>) {
    (f.width, f.height, f.rgba@)
}

/// What `image::guess_format`, `image::load_from_memory_with_format` and
/// `to_rgba8` make of the given bytes: width, height and RGBA bytes, or
/// nothing when no built-in format is recognised or the bytes do not decode.
pub uninterp spec fn decoded_image(bytes: Seq<u8>) -> Option<(u32, u32, Seq<u8>)>;

/// What `image`'s GIF decoder makes of the given bytes: for each frame the
/// delay as milliseconds numerator and denominator, the width, the height and
/// the RGBA bytes; nothing when the bytes do not decode.
pub uninterp spec fn decoded_gif(bytes: Seq<u8>) -> Option<Seq<(u32, u32, u32, u32, Seq<u8>)>>;

/// Guesses the format from the leading magic bytes with `image::guess_format`
/// (a fixed table), decodes with `image::load_from_memory_with_format` (a
/// built-in decoder, never a registered hook) and converts the image with
/// `DynamicImage::to_rgba8`. The contract only names the result: it equals
/// `decoded_image` of the bytes.
#[verifier::external_body]
fn decode_rgba(bytes: &[u8]) -> (r: Option<RgbaFrame>)
    ensures
        r is None ==> decoded_image(bytes@) is None,
        r matches Some(f) ==> decoded_image(bytes@) == Some(frame_view(f)),
{
    let format = image::guess_format(bytes).ok()?;
    let img = image::load_from_memory_with_format(bytes, format).ok()?.to_rgba8();
    let (width, height) = img.dimensions();
    Some(RgbaFrame { width, height, rgba: img.into_raw() })
}

/// One GIF frame: its delay in milliseconds as numerator and denominator,
/// and its image.
pub struct GifFrame {
    pub delay_num: u32,
    pub delay_den: u32,
    pub image: RgbaFrame,
}

/// A GIF frame as plain values.
pub open spec fn gif_frame_view(f: GifFrame) -> (u32, u32, u32, u32, Seq<u8>) {
    (f.delay_num, f.delay_den, f.image.width, f.image.height, f.image.rgba@)
}

/// Calls `image::codecs::gif::GifDecoder::new` on the bytes and collects its
/// frames with `into_frames().collect_frames()`, taking each frame's
/// `delay().numer_denom_ms()` and its RGBA buffer. The contract only names the
/// result: it equals `decoded_gif` of the bytes.
#[verifier::external_body]
fn decode_gif(bytes: &[u8]) -> (r: Option<Vec<GifFrame>>)
    ensures
        r is None ==> decoded_gif(bytes@) is None,
        r matches Some(v) ==> decoded_gif(bytes@) == Some(v@.map_values(|f: GifFrame| gif_frame_view(f))),
{
    let dec = image::codecs::gif::GifDecoder::new(std::io::Cursor::new(bytes)).ok()?;
    let frames = dec.into_frames().collect_frames().ok()?;
    let mut out = Vec::new();
    for fr in frames {
        let (delay_num, delay_den) = fr.delay().numer_denom_ms();
        let buf = fr.into_buffer();
        let (width, height) = buf.dimensions();
        out.push(GifFrame { delay_num, delay_den, image: RgbaFrame { width, height, rgba: buf.into_raw() } });
    }
    Some(out)
}

/// The images that decode, in order, out of a list of encoded images; those
/// that do not decode are skipped.
pub open spec fn decoded_sprites(frames: Seq<Seq<u8>>) -> Seq<(u32, u32, Seq<u8>)>
    decreases frames.len(),
{
    if frames.len() == 0 {
        Seq::empty()
    } else {
        let rest = decoded_sprites(frames.drop_last());
        match decoded_image(frames.last()) {
            Some(f) => rest.push(f),
            None => rest,
        }
    }
}

/// When every encoded image decodes, the sprites are exactly those images in
/// the given order; when none decodes there are no sprites.
pub proof fn sprites_keep_order(frames: Seq<Seq<u8>>)
    ensures
        (forall|i: int| 0 <= i < frames.len() ==> (#[trigger] decoded_image(frames[i])) is Some)
            ==> decoded_sprites(frames) == frames.map_values(|b: Seq<u8>| decoded_image(b)->0),
        (forall|i: int| 0 <= i < frames.len() ==> (#[trigger] decoded_image(frames[i])) is None)
            ==> decoded_sprites(frames) == Seq::<(u32, u32, Seq<u8>)>::empty(),
    decreases frames.len(),
{
    if frames.len() > 0 {
        let init = frames.drop_last();
        sprites_keep_order(init);
        if forall|i: int| 0 <= i < frames.len() ==> (#[trigger] decoded_image(frames[i])) is Some {
            assert forall|i: int| 0 <= i < init.len() implies (#[trigger] decoded_image(init[i])) is Some by {
                assert(init[i] == frames[i]);
            }
            assert(decoded_image(frames[frames.len() - 1]) is Some);
            assert(decoded_sprites(frames) =~= frames.map_values(|b: Seq<u8>| decoded_image(b)->0));
        }
        if forall|i: int| 0 <= i < frames.len() ==> (#[trigger] decoded_image(frames[i])) is None {
            assert forall|i: int| 0 <= i < init.len() implies (#[trigger] decoded_image(init[i])) is None by {
                assert(init[i] == frames[i]);
            }
            assert(decoded_image(frames[frames.len() - 1]) is None);
        }
    }
}

/// Decodes the frames of a sprite animation, skipping any that fail to decode.
pub fn decode_sprites(frames: &[&[u8]]) -> (r: Vec<RgbaFrame>)
    ensures
        r@.map_values(|f: RgbaFrame| frame_view(f)) == decoded_sprites(frames@.map_values(|b: &[u8]| b@)),
{
    let ghost all = frames@.map_values(|b: &[u8]| b@);
    let mut out: Vec<RgbaFrame> = Vec::new();
    let mut i: usize = 0;
    while i < frames.len()
        invariant
            i <= frames@.len(),
            all == frames@.map_values(|b: &[u8]| b@),
            out@.map_values(|f: RgbaFrame| frame_view(f)) == decoded_sprites(all.take(i as int)),
        decreases frames@.len() - i,
    {
        assert(all.take(i + 1).drop_last() =~= all.take(i as int));
        assert(all.take(i + 1).last() == frames@[i as int]@);
        match decode_rgba(frames[i]) {
            Some(f) => {
                out.push(f);
                assert(out@.map_values(|f: RgbaFrame| frame_view(f)) =~= decoded_sprites(all.take(i as int)).push(frame_view(out@.last())));
            },
            None => {},
        }
        i = i + 1;
    }
    assert(all.take(frames@.len() as int) =~= all);
    out
}

/// A GIF ready to play: the first frame's delay, which sets the rate, and
/// the frames in order.
pub struct GifAnimation {
    pub delay_num: u32,
    pub delay_den: u32,
    pub frames: Vec<GifFrame>,
}

/// Keeps a decoded GIF as an animation: nothing when it has no frames,
/// otherwise the first frame's delay and all frames in order.
pub fn gif_animation(frames: Vec<GifFrame>) -> (r: Option<GifAnimation>)
    ensures
        r is None <==> frames@.len() == 0,
        r matches Some(a) ==> {
            &&& a.delay_num == frames@[0].delay_num
            &&& a.delay_den == frames@[0].delay_den
            &&& a.frames@ == frames@
        },
{
    if frames.len() == 0 {
        return None;
    }
    let delay_num = frames[0].delay_num;
    let delay_den = frames[0].delay_den;
    Some(GifAnimation { delay_num, delay_den, frames })
}

/// Decodes a GIF for playback: nothing when the bytes do not decode or hold
/// no frame, otherwise the first frame's delay and all decoded frames.
pub fn load_gif_bytes(bytes: &[u8]) -> (r: Option<GifAnimation>)
    ensures
        decoded_gif(bytes@) is None ==> r is None,
        decoded_gif(bytes@) matches Some(fs) ==> {
            &&& (r is None <==> fs.len() == 0)
            &&& r matches Some(a) ==> {
                &&& a.delay_num == fs[0].0
                &&& a.delay_den == fs[0].1
                &&& a.frames@.map_values(|f: GifFrame| gif_frame_view(f)) == fs
            }
        },
{
    match decode_gif(bytes) {
        None => None,
        Some(frames) => gif_animation(frames),
    }
}

} // verus!
