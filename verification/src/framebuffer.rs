//! Frame payloads and the packets that carry them: the constant-colour fill,
//! the check on decoded pixels, and the framing of each kind of picture.

use vstd::prelude::*;
use crate::error::Error;
use crate::protocol::{
    compose_frame_pkt, frame_header_fields, frame_packet, payload_length, payload_size,
    PacketHeader, HEADER_SIZE, MAGIC, WRITE,
};

verus! {

/// Bytes per pixel of the one pixel format that the display takes.
pub const BYTES_PER_PIXEL: u16 = 2;

/// The two bytes of a 16-bit colour, low byte first.
pub open spec fn color_bytes(color: u16) -> Seq<u8> {
    seq![(color % 256) as u8, (color / 256) as u8]
}

/// The two bytes of pixel `p` in a payload.
pub open spec fn pixel_at(payload: Seq<u8>, p: int) -> Seq<u8> {
    payload.subrange(2 * p, 2 * p + 2)
}

/// A payload of `pixels` pixels, each of them `color`.
pub open spec fn solid_fill(pixels: nat, color: u16) -> Seq<u8> {
    Seq::new(
        2 * pixels,
        |i: int|
            if i % 2 == 0 {
                (color % 256) as u8
            } else {
                (color / 256) as u8
            },
    )
}

/// Number of bytes of one frame of the given size.
pub open spec fn frame_size(width: u16, height: u16) -> nat {
    payload_size(width, height, BYTES_PER_PIXEL)
}

/// Tells whether one frame of the given size fits a packet, whose length
/// field has 32 bits.
pub fn frame_fits(width: u16, height: u16) -> (b: bool)
    ensures
        b == (frame_size(width, height) <= u32::MAX),
{
    let w: u64 = width as u64;
    let h: u64 = height as u64;
    assert(w * h <= 65535 * 65535) by (nonlinear_arith)
        requires
            w <= 65535,
            h <= 65535,
    ;
    w * h * 2 <= 0xFFFF_FFFF
}

/// Every pixel of a constant-colour payload is the colour's two bytes, and
/// the payload has two bytes for each pixel.
pub proof fn lemma_solid_fill_pixels(width: u16, height: u16, color: u16)
    ensures
        solid_fill((width as nat) * (height as nat), color).len() == frame_size(width, height),
        forall|p: int|
            0 <= p < (width as nat) * (height as nat) ==> #[trigger] pixel_at(
                solid_fill((width as nat) * (height as nat), color),
                p,
            ) == color_bytes(color),
{
    let n = (width as nat) * (height as nat);
    let fill = solid_fill(n, color);
    assert(2 * n == n * 2);
    assert forall|p: int| 0 <= p < n implies #[trigger] pixel_at(fill, p) == color_bytes(
        color,
    ) by {
        assert(pixel_at(fill, p) =~= color_bytes(color));
    }
}

/// Builds the payload of a frame in which every pixel is `color`, stored low
/// byte first.
pub fn solid_color_rgb565(width: u16, height: u16, color: u16) -> (buf: Vec<u8>)
    ensures
        buf@ == solid_fill((width as nat) * (height as nat), color),
        buf@.len() == frame_size(width, height),
        forall|p: int|
            0 <= p < (width as nat) * (height as nat) ==> #[trigger] pixel_at(buf@, p)
                == color_bytes(color),
{
    let lo: u8 = (color % 256) as u8;
    let hi: u8 = (color / 256) as u8;
    let w: u32 = width as u32;
    let h: u32 = height as u32;
    assert(w * h <= 65535 * 65535) by (nonlinear_arith)
        requires
            w <= 65535,
            h <= 65535,
    ;
    let pixels: u32 = w * h;
    let mut buf: Vec<u8> = Vec::new();
    let mut k: u32 = 0;
    while k < pixels
        invariant
            k <= pixels,
            lo == (color % 256) as u8,
            hi == (color / 256) as u8,
            buf@ == solid_fill(k as nat, color),
        decreases pixels - k,
    {
        buf.push(lo);
        buf.push(hi);
        k = k + 1;
        assert(buf@ =~= solid_fill(k as nat, color));
    }
    proof {
        lemma_solid_fill_pixels(width, height, color);
    }
    buf
}

/// The header of a frame of the display's pixel format.
pub fn frame_header(width: u16, height: u16) -> (h: Vec<u8>)
    requires
        frame_size(width, height) <= u32::MAX,
    ensures
        h@ == frame_header_fields(width, height, BYTES_PER_PIXEL).wire(),
        h@.len() == HEADER_SIZE,
{
    let header = PacketHeader {
        magic: MAGIC,
        command: WRITE,
        width: width as u32,
        height: height as u32,
        bytes_per_pixel: BYTES_PER_PIXEL as u32,
        payload_length: payload_length(width, height, BYTES_PER_PIXEL),
    };
    header.as_bytes()
}

/// The packet that paints the whole display in one colour.
pub fn solid_color_frame(width: u16, height: u16, color: u16) -> (frame: Vec<u8>)
    requires
        frame_size(width, height) <= u32::MAX,
    ensures
        frame@ == frame_packet(
            width,
            height,
            BYTES_PER_PIXEL,
            solid_fill((width as nat) * (height as nat), color),
        ),
        frame@.len() == HEADER_SIZE + frame_size(width, height),
{
    let mut frame = frame_header(width, height);
    let mut pixels = solid_color_rgb565(width, height, color);
    frame.append(&mut pixels);
    frame
}

/// Accepts the bytes that an image decoder produced if they are exactly one
/// frame, and refuses them otherwise: nothing is cut off or padded.
pub fn check_decoded_pixels(width: u16, height: u16, pixels: Vec<u8>) -> (r: Result<
    Vec<u8>,
    Error,
>)
    requires
        frame_size(width, height) <= u32::MAX,
    ensures
        pixels@.len() == frame_size(width, height) ==> r == Ok::<Vec<u8>, Error>(pixels),
        pixels@.len() != frame_size(width, height) ==> r == Err::<Vec<u8>, Error>(
            Error::DecodeSizeMismatch {
                expected: frame_size(width, height) as usize,
                actual: pixels@.len() as usize,
            },
        ),
{
    let expected = payload_length(width, height, BYTES_PER_PIXEL) as usize;
    if pixels.len() != expected {
        return Err(Error::DecodeSizeMismatch { expected, actual: pixels.len() });
    }
    Ok(pixels)
}

/// The packet that shows a decoded still image. The pixels must be exactly
/// one frame; anything else is a decode failure.
pub fn picture_frame(width: u16, height: u16, pixels: Vec<u8>) -> (r: Result<Vec<u8>, Error>)
    requires
        frame_size(width, height) <= u32::MAX,
    ensures
        pixels@.len() == frame_size(width, height) ==> r is Ok && r->Ok_0@ == frame_packet(
            width,
            height,
            BYTES_PER_PIXEL,
            pixels@,
        ),
        pixels@.len() != frame_size(width, height) ==> r == Err::<Vec<u8>, Error>(
            Error::DecodeSizeMismatch {
                expected: frame_size(width, height) as usize,
                actual: pixels@.len() as usize,
            },
        ),
{
    match check_decoded_pixels(width, height, pixels) {
        Ok(checked) => compose_frame_pkt(width, height, BYTES_PER_PIXEL, checked),
        Err(e) => Err(e),
    }
}

/// The packet that shows one frame of a video.
pub fn video_frame(width: u16, height: u16, pixels: Vec<u8>) -> (r: Result<Vec<u8>, Error>)
    requires
        frame_size(width, height) <= u32::MAX,
    ensures
        pixels@.len() == frame_size(width, height) ==> r is Ok && r->Ok_0@ == frame_packet(
            width,
            height,
            BYTES_PER_PIXEL,
            pixels@,
        ),
        pixels@.len() != frame_size(width, height) ==> r == Err::<Vec<u8>, Error>(
            Error::PayloadMismatch {
                expected: frame_size(width, height) as usize,
                actual: pixels@.len() as usize,
            },
        ),
{
    compose_frame_pkt(width, height, BYTES_PER_PIXEL, pixels)
}

} // verus!
