use vstd::prelude::*;
use image::{ImageBuffer, Rgba};

verus! {

pub const VISIBLE_WIDTH: usize = 160;

pub const VISIBLE_HEIGHT: usize = 144;

/// Bytes in a frame: four channels per visible pixel.
pub const FRAME_BYTES: usize = 92160;

/// The visible frame, an RGBA image buffer of 160 by 144 pixels.
#[verifier::external_body]
pub struct Screen {
    buf: ImageBuffer<Rgba<u8>, Vec<u8>>,
}

/// The frame's raw bytes, row-major, four channels per pixel.
pub uninterp spec fn screen_bytes(s: Screen) -> Seq<u8>;

/// The frame's width in pixels.
pub uninterp spec fn screen_width(s: Screen) -> u32;

/// The frame's height in pixels.
pub uninterp spec fn screen_height(s: Screen) -> u32;

/// `bytes` of a frame `width` pixels wide with the four channels of pixel
/// (`x`, `y`) replaced by `px`.
pub open spec fn put_spec(bytes: Seq<u8>, width: int, x: int, y: int, px: Seq<u8>) -> Seq<u8> {
    let base = (y * width + x) * 4;
    Seq::new(bytes.len(), |i: int| if base <= i < base + 4 { px[i - base] } else { bytes[i] })
}

/// Relies on image's `ImageBuffer::new`: a buffer of width * height pixels
/// with every channel zero; it panics when 4 * width, or that times height,
/// overflows usize.
#[verifier::external_body]
pub fn new_screen(width: u32, height: u32) -> (r: Screen)
    requires
        width * 4 <= usize::MAX,
        width * height * 4 <= usize::MAX,
    ensures
        screen_width(r) == width,
        screen_height(r) == height,
        screen_bytes(r) == Seq::new((width * height * 4) as nat, |i: int| 0u8),
{
    Screen { buf: ImageBuffer::new(width, height) }
}

/// Relies on image's `ImageBuffer::put_pixel`: the channels of pixel (x, y)
/// are the bytes from (y * width + x) * 4 on; it panics outside the image.
#[verifier::external_body]
pub fn put_pixel(s: &mut Screen, x: u32, y: u32, px: [u8; 4])
    requires
        x < screen_width(*old(s)),
        y < screen_height(*old(s)),
    ensures
        screen_width(*final(s)) == screen_width(*old(s)),
        screen_height(*final(s)) == screen_height(*old(s)),
        screen_bytes(*final(s)) == put_spec(
            screen_bytes(*old(s)),
            screen_width(*old(s)) as int,
            x as int,
            y as int,
            px@,
        ),
{
    s.buf.put_pixel(x, y, Rgba(px))
}

/// Relies on image's `ImageBuffer::as_raw`: the buffer's bytes as stored.
#[verifier::external_body]
pub fn raw_bytes(s: &Screen) -> (r: Vec<u8>)
    ensures
        r@ == screen_bytes(*s),
{
    s.buf.as_raw().clone()
}

} // verus!
