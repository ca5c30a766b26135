//! The wire protocol: a 64-byte little-endian packet header, the probe
//! request and the frame packet.

use vstd::prelude::*;
use crate::error::Error;

verus! {

/// Size of every packet header on the wire.
pub const HEADER_SIZE: usize = 64;

/// Magic number; its little-endian encoding is the byte string `12 34 56 78`.
pub const MAGIC: u32 = 0x7856_3412;

/// Value of the flag field that marks a probe request.
pub const PROBE: u32 = 1;

/// Command code of a frame write.
pub const WRITE: u32 = 3;

/// Offset of the magic field.
pub const OFFSET_MAGIC: usize = 0x00;

/// Offset of the command field.
pub const OFFSET_COMMAND: usize = 0x04;

/// Offset of the width field.
pub const OFFSET_WIDTH: usize = 0x08;

/// Offset of the height field.
pub const OFFSET_HEIGHT: usize = 0x0C;

/// Offset of the first reserved byte.
pub const OFFSET_RESERVED: usize = 0x10;

/// Offset of the field that holds the bytes per pixel, or the probe flag.
pub const OFFSET_BYTES_PER_PIXEL: usize = 0x38;

/// Offset of the payload length field.
pub const OFFSET_PAYLOAD_LENGTH: usize = 0x3C;

/// The four bytes of `x`, least significant first.
pub open spec fn le_bytes(x: u32) -> Seq<u8> {
    seq![
        (x % 256) as u8,
        (x / 256 % 256) as u8,
        (x / 65536 % 256) as u8,
        (x / 16777216) as u8,
    ]
}

/// The number whose little-endian encoding starts at `off` in `b`.
pub open spec fn le_value(b: Seq<u8>, off: int) -> u32
    recommends
        0 <= off,
        off + 4 <= b.len(),
{
    (b[off] + 256 * b[off + 1] + 65536 * b[off + 2] + 16777216 * b[off + 3]) as u32
}

/// Decoding undoes encoding.
pub proof fn lemma_le_round_trip(x: u32)
    ensures
        le_bytes(x).len() == 4,
        le_value(le_bytes(x), 0) == x,
{
}

/// Little-endian bytes of `x`, taken from its in-memory form by
/// `bytemuck::bytes_of` after `u32::to_le` has put that form in little-endian
/// order. The contract claims that the four bytes come out least significant
/// first on every host.
#[verifier::external_body]
fn u32_le_bytes(x: u32) -> (b: Vec<u8>)
    ensures
        b@ == le_bytes(x),
{
    bytemuck::bytes_of(&x.to_le()).to_vec()
}

/// The fields of a packet header. The 40 reserved bytes between the height
/// and the bytes-per-pixel field are always zero and are not stored.
#[derive(Clone, Copy, Debug, PartialEq, Eq, Structural)]
pub struct PacketHeader {
    pub magic: u32,
    pub command: u32,
    pub width: u32,
    pub height: u32,
    pub bytes_per_pixel: u32,
    pub payload_length: u32,
}

/// `n` zero bytes.
pub open spec fn zeros(n: nat) -> Seq<u8> {
    Seq::new(n, |i: int| 0u8)
}

impl PacketHeader {
    /// The 64 bytes that stand for this header on the wire.
    pub open spec fn wire(self) -> Seq<u8> {
        le_bytes(self.magic) + le_bytes(self.command) + le_bytes(self.width) + le_bytes(
            self.height,
        ) + zeros(40) + le_bytes(self.bytes_per_pixel) + le_bytes(self.payload_length)
    }

    /// Encodes the header.
    pub fn as_bytes(&self) -> (b: Vec<u8>)
        ensures
            b@ == self.wire(),
            b@.len() == HEADER_SIZE,
    {
        let mut b = u32_le_bytes(self.magic);
        let mut field = u32_le_bytes(self.command);
        b.append(&mut field);
        let mut field = u32_le_bytes(self.width);
        b.append(&mut field);
        let mut field = u32_le_bytes(self.height);
        b.append(&mut field);
        let ghost head = b@;
        let mut i: usize = 0;
        while i < 40
            invariant
                i <= 40,
                b@ == head + zeros(i as nat),
            decreases 40 - i,
        {
            b.push(0u8);
            i = i + 1;
            assert(b@ =~= head + zeros(i as nat));
        }
        let mut field = u32_le_bytes(self.bytes_per_pixel);
        b.append(&mut field);
        let mut field = u32_le_bytes(self.payload_length);
        b.append(&mut field);
        b
    }
}

/// What the header's fields are where they lie at their offsets in `b`.
pub open spec fn decoded(b: Seq<u8>) -> PacketHeader
    recommends
        b.len() >= HEADER_SIZE,
{
    PacketHeader {
        magic: le_value(b, OFFSET_MAGIC as int),
        command: le_value(b, OFFSET_COMMAND as int),
        width: le_value(b, OFFSET_WIDTH as int),
        height: le_value(b, OFFSET_HEIGHT as int),
        bytes_per_pixel: le_value(b, OFFSET_BYTES_PER_PIXEL as int),
        payload_length: le_value(b, OFFSET_PAYLOAD_LENGTH as int),
    }
}

/// The header of a probe request: the magic, the probe flag, all else zero.
pub open spec fn probe_header() -> PacketHeader {
    PacketHeader {
        magic: MAGIC,
        command: 0,
        width: 0,
        height: 0,
        bytes_per_pixel: PROBE,
        payload_length: 0,
    }
}

/// Number of payload bytes of a frame of the given size.
pub open spec fn payload_size(width: u16, height: u16, bytes_per_pixel: u16) -> nat {
    (width as nat) * (height as nat) * (bytes_per_pixel as nat)
}

/// The header of a frame packet.
pub open spec fn frame_header_fields(width: u16, height: u16, bytes_per_pixel: u16) -> PacketHeader
    recommends
        payload_size(width, height, bytes_per_pixel) <= u32::MAX,
{
    PacketHeader {
        magic: MAGIC,
        command: WRITE,
        width: width as u32,
        height: height as u32,
        bytes_per_pixel: bytes_per_pixel as u32,
        payload_length: payload_size(width, height, bytes_per_pixel) as u32,
    }
}

/// A frame packet: the header, then the payload with nothing between.
pub open spec fn frame_packet(
    width: u16,
    height: u16,
    bytes_per_pixel: u16,
    payload: Seq<u8>,
) -> Seq<u8> {
    frame_header_fields(width, height, bytes_per_pixel).wire() + payload
}

/// Reads one little-endian field.
fn read_field(bytes: &[u8], off: usize) -> (x: u32)
    requires
        off + 4 <= bytes@.len(),
    ensures
        x == le_value(bytes@, off as int),
{
    let b0: u32 = bytes[off] as u32;
    let b1: u32 = bytes[off + 1] as u32;
    let b2: u32 = bytes[off + 2] as u32;
    let b3: u32 = bytes[off + 3] as u32;
    b0 + 256 * b1 + 65536 * b2 + 16777216 * b3
}

/// Reads the header fields from the first 64 bytes of a packet or of a probe
/// response. Fewer than 64 bytes hold no header.
pub fn decode_header(bytes: &[u8]) -> (r: Option<PacketHeader>)
    ensures
        bytes@.len() >= HEADER_SIZE ==> r == Some(decoded(bytes@)),
        bytes@.len() < HEADER_SIZE ==> r is None,
{
    if bytes.len() < HEADER_SIZE {
        return None;
    }
    Some(
        PacketHeader {
            magic: read_field(bytes, OFFSET_MAGIC),
            command: read_field(bytes, OFFSET_COMMAND),
            width: read_field(bytes, OFFSET_WIDTH),
            height: read_field(bytes, OFFSET_HEIGHT),
            bytes_per_pixel: read_field(bytes, OFFSET_BYTES_PER_PIXEL),
            payload_length: read_field(bytes, OFFSET_PAYLOAD_LENGTH),
        },
    )
}

/// The probe request: a bare header with the probe flag set.
pub fn compose_probe_request() -> (pkt: Vec<u8>)
    ensures
        pkt@ == probe_header().wire(),
        pkt@.len() == HEADER_SIZE,
{
    let header = PacketHeader {
        magic: MAGIC,
        command: 0,
        width: 0,
        height: 0,
        bytes_per_pixel: PROBE,
        payload_length: 0,
    };
    header.as_bytes()
}

/// Computes `width * height * bytes_per_pixel`.
pub fn payload_length(width: u16, height: u16, bytes_per_pixel: u16) -> (n: u32)
    requires
        payload_size(width, height, bytes_per_pixel) <= u32::MAX,
    ensures
        n == payload_size(width, height, bytes_per_pixel),
{
    let w: u32 = width as u32;
    let h: u32 = height as u32;
    let bpp: u32 = bytes_per_pixel as u32;
    assert(w * h <= 65535 * 65535) by (nonlinear_arith)
        requires
            w <= 65535,
            h <= 65535,
    ;
    w * h * bpp
}

/// Frames a payload of the right length: the header, then the payload.
pub fn frame_pkt(width: u16, height: u16, bytes_per_pixel: u16, payload: Vec<u8>) -> (pkt: Vec<u8>)
    requires
        payload_size(width, height, bytes_per_pixel) <= u32::MAX,
        payload@.len() == payload_size(width, height, bytes_per_pixel),
    ensures
        pkt@ == frame_packet(width, height, bytes_per_pixel, payload@),
        pkt@.len() == HEADER_SIZE + payload@.len(),
{
    let header = PacketHeader {
        magic: MAGIC,
        command: WRITE,
        width: width as u32,
        height: height as u32,
        bytes_per_pixel: bytes_per_pixel as u32,
        payload_length: payload_length(width, height, bytes_per_pixel),
    };
    let mut pkt = header.as_bytes();
    let mut payload = payload;
    pkt.append(&mut payload);
    pkt
}

/// Frames one payload: a header with the write command, the dimensions and
/// the payload length, followed by the payload. A payload whose length is not
/// `width * height * bytes_per_pixel` is refused, and nothing is framed.
pub fn compose_frame_pkt(
    width: u16,
    height: u16,
    bytes_per_pixel: u16,
    frame_bytes: Vec<u8>,
) -> (r: Result<Vec<u8>, Error>)
    requires
        payload_size(width, height, bytes_per_pixel) <= u32::MAX,
    ensures
        frame_bytes@.len() == payload_size(width, height, bytes_per_pixel) ==> r is Ok
            && r->Ok_0@ == frame_packet(width, height, bytes_per_pixel, frame_bytes@),
        frame_bytes@.len() != payload_size(width, height, bytes_per_pixel) ==> r == Err::<
            Vec<u8>,
            Error,
        >(
            Error::PayloadMismatch {
                expected: payload_size(width, height, bytes_per_pixel) as usize,
                actual: frame_bytes@.len() as usize,
            },
        ),
{
    let expected = payload_length(width, height, bytes_per_pixel) as usize;
    if frame_bytes.len() != expected {
        return Err(Error::PayloadMismatch { expected, actual: frame_bytes.len() });
    }
    Ok(frame_pkt(width, height, bytes_per_pixel, frame_bytes))
}

/// The offset table: where each field of a header lies in its encoding, and
/// that the encoding is 64 bytes with the reserved range zero.
pub proof fn lemma_wire_layout(h: PacketHeader)
    ensures
        h.wire().len() == HEADER_SIZE,
        h.wire().subrange(0x00, 0x04) == le_bytes(h.magic),
        h.wire().subrange(0x04, 0x08) == le_bytes(h.command),
        h.wire().subrange(0x08, 0x0C) == le_bytes(h.width),
        h.wire().subrange(0x0C, 0x10) == le_bytes(h.height),
        h.wire().subrange(0x10, 0x38) == zeros(40),
        h.wire().subrange(0x38, 0x3C) == le_bytes(h.bytes_per_pixel),
        h.wire().subrange(0x3C, 0x40) == le_bytes(h.payload_length),
        forall|i: int| 0x10 <= i < 0x38 ==> h.wire()[i] == 0,
{
    let w = h.wire();
    assert(w.subrange(0x00, 0x04) =~= le_bytes(h.magic));
    assert(w.subrange(0x04, 0x08) =~= le_bytes(h.command));
    assert(w.subrange(0x08, 0x0C) =~= le_bytes(h.width));
    assert(w.subrange(0x0C, 0x10) =~= le_bytes(h.height));
    assert(w.subrange(0x10, 0x38) =~= zeros(40));
    assert(w.subrange(0x38, 0x3C) =~= le_bytes(h.bytes_per_pixel));
    assert(w.subrange(0x3C, 0x40) =~= le_bytes(h.payload_length));
}

/// A field that lies encoded at `off` is read back from there.
pub proof fn lemma_field_at(b: Seq<u8>, off: int, x: u32)
    requires
        0 <= off,
        off + 4 <= b.len(),
        b.subrange(off, off + 4) == le_bytes(x),
    ensures
        le_value(b, off) == x,
{
    let f = b.subrange(off, off + 4);
    assert(b[off] == f[0]);
    assert(b[off + 1] == f[1]);
    assert(b[off + 2] == f[2]);
    assert(b[off + 3] == f[3]);
    assert(le_value(b, off) == le_value(f, 0));
    lemma_le_round_trip(x);
}

/// Decoding an encoded header gives the header back, whatever follows it.
pub proof fn lemma_header_round_trip(h: PacketHeader, rest: Seq<u8>)
    ensures
        (h.wire() + rest).len() == HEADER_SIZE + rest.len(),
        decoded(h.wire() + rest) == h,
{
    lemma_wire_layout(h);
    let b = h.wire() + rest;
    assert(b.subrange(0x00, 0x04) =~= h.wire().subrange(0x00, 0x04));
    assert(b.subrange(0x04, 0x08) =~= h.wire().subrange(0x04, 0x08));
    assert(b.subrange(0x08, 0x0C) =~= h.wire().subrange(0x08, 0x0C));
    assert(b.subrange(0x0C, 0x10) =~= h.wire().subrange(0x0C, 0x10));
    assert(b.subrange(0x38, 0x3C) =~= h.wire().subrange(0x38, 0x3C));
    assert(b.subrange(0x3C, 0x40) =~= h.wire().subrange(0x3C, 0x40));
    lemma_field_at(b, 0x00, h.magic);
    lemma_field_at(b, 0x04, h.command);
    lemma_field_at(b, 0x08, h.width);
    lemma_field_at(b, 0x0C, h.height);
    lemma_field_at(b, 0x38, h.bytes_per_pixel);
    lemma_field_at(b, 0x3C, h.payload_length);
    assert(le_value(b, 0x00) == h.magic);
    assert(le_value(b, 0x04) == h.command);
    assert(le_value(b, 0x08) == h.width);
    assert(le_value(b, 0x0C) == h.height);
    assert(le_value(b, 0x38) == h.bytes_per_pixel);
    assert(le_value(b, 0x3C) == h.payload_length);
}

/// Decoding a frame packet recovers the width, the height, the bytes per pixel
/// and the payload's length, and the packet is 64 bytes longer than the
/// payload. This holds for empty frames too.
pub proof fn lemma_frame_round_trip(
    width: u16,
    height: u16,
    bytes_per_pixel: u16,
    payload: Seq<u8>,
)
    requires
        payload_size(width, height, bytes_per_pixel) <= u32::MAX,
        payload.len() == payload_size(width, height, bytes_per_pixel),
    ensures
        frame_packet(width, height, bytes_per_pixel, payload).len() == HEADER_SIZE + payload.len(),
        decoded(frame_packet(width, height, bytes_per_pixel, payload)) == frame_header_fields(
            width,
            height,
            bytes_per_pixel,
        ),
        decoded(frame_packet(width, height, bytes_per_pixel, payload)).magic == MAGIC,
        decoded(frame_packet(width, height, bytes_per_pixel, payload)).command == WRITE,
        decoded(frame_packet(width, height, bytes_per_pixel, payload)).width == width,
        decoded(frame_packet(width, height, bytes_per_pixel, payload)).height == height,
        decoded(frame_packet(width, height, bytes_per_pixel, payload)).bytes_per_pixel
            == bytes_per_pixel,
        decoded(frame_packet(width, height, bytes_per_pixel, payload)).payload_length
            == payload.len(),
        frame_packet(width, height, bytes_per_pixel, payload).subrange(
            HEADER_SIZE as int,
            HEADER_SIZE + payload.len(),
        ) == payload,
        (width == 0 || height == 0) ==> payload.len() == 0,
{
    let h = frame_header_fields(width, height, bytes_per_pixel);
    lemma_header_round_trip(h, payload);
    lemma_wire_layout(h);
    assert(frame_packet(width, height, bytes_per_pixel, payload).subrange(
        HEADER_SIZE as int,
        HEADER_SIZE + payload.len(),
    ) =~= payload);
    assert((width == 0 || height == 0) ==> (width as nat) * (height as nat) * (
    bytes_per_pixel as nat) == 0) by (nonlinear_arith);
}

/// The bytes of the probe request: `12 34 56 78` at offset 0, a single `1` at
/// offset `0x38`, zero everywhere else.
pub proof fn lemma_probe_request_bytes()
    ensures
        probe_header().wire().len() == HEADER_SIZE,
        probe_header().wire().subrange(0, 4) == seq![0x12u8, 0x34u8, 0x56u8, 0x78u8],
        probe_header().wire()[0x38] == 1,
        forall|i: int| 4 <= i < 64 && i != 0x38 ==> probe_header().wire()[i] == 0,
        decoded(probe_header().wire()) == probe_header(),
{
    let h = probe_header();
    lemma_wire_layout(h);
    lemma_header_round_trip(h, Seq::<u8>::empty());
    assert(h.wire() + Seq::<u8>::empty() =~= h.wire());
    assert(h.wire().subrange(0, 4) =~= seq![0x12u8, 0x34u8, 0x56u8, 0x78u8]);
}

} // verus!
