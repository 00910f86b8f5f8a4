use vstd::prelude::*;

verus! {

/// Offset of the info-header size field, which must hold `BMP_INFO_HEADER`.
pub const HEADER_SIZE_OFFSET: usize = 0x0e;
/// Offset of the width field.
pub const WIDTH_OFFSET: usize = 0x12;
/// Offset of the height field.
pub const HEIGHT_OFFSET: usize = 0x16;
/// Offset of the bits-per-pixel field, which must hold `BMP_BIT_DEPTH`.
pub const BIT_DEPTH_OFFSET: usize = 0x1c;
/// Offset of the pixel-data size field.
pub const DATA_SIZE_OFFSET: usize = 0x22;
/// Length of the header prefix that holds every field read.
pub const HEADER_LEN: usize = 0x26;
/// The only supported info-header size (no compression, plain header).
pub const BMP_INFO_HEADER: u32 = 40;
/// The only supported bit depth: one palette index per byte.
pub const BMP_BIT_DEPTH: u16 = 8;
/// Bytes of width/height metadata that trail a decoded asset.
pub const TRAILER_LEN: usize = 8;

/// Why a bitmap was refused.
#[derive(Clone, Copy, Debug, PartialEq, Eq, Structural)]
pub enum BitmapError {
    /// The buffer is too short to hold the header fields.
    Truncated,
    /// The info-header size field is not the supported one.
    HeaderSize,
    /// The bit depth is not 8.
    BitDepth,
    /// The pixel-data size field differs from `width * height`.
    SizeMismatch,
    /// The buffer holds fewer than `width * height` bytes.
    MissingPixels,
}

/// The little-endian 16-bit integer at `i`.
pub open spec fn le16_at(s: Seq<u8>, i: int) -> u16 {
    (s[i] as u16) | ((s[i + 1] as u16) << 8u16)
}

/// The little-endian 32-bit integer at `i`.
pub open spec fn le32_at(s: Seq<u8>, i: int) -> u32 {
    (s[i] as u32) | ((s[i + 1] as u32) << 8u32) | ((s[i + 2] as u32) << 16u32) | ((s[i + 3]
        as u32) << 24u32)
}

/// The little-endian encoding of `x`.
pub open spec fn le32_bytes(x: u32) -> Seq<u8> {
    seq![
        (x & 0xff) as u8,
        ((x >> 8u32) & 0xff) as u8,
        ((x >> 16u32) & 0xff) as u8,
        ((x >> 24u32) & 0xff) as u8,
    ]
}

/// Reading back a little-endian encoding gives the value encoded.
pub proof fn lemma_le32_round_trip(x: u32)
    ensures
        le32_at(le32_bytes(x), 0) == x,
{
    let b = le32_bytes(x);
    let b0 = b[0];
    let b1 = b[1];
    let b2 = b[2];
    let b3 = b[3];
    assert(((b0 as u32) | ((b1 as u32) << 8u32) | ((b2 as u32) << 16u32) | ((b3 as u32)
        << 24u32)) == x) by (bit_vector)
        requires
            b0 == (x & 0xff) as u8,
            b1 == ((x >> 8u32) & 0xff) as u8,
            b2 == ((x >> 16u32) & 0xff) as u8,
            b3 == ((x >> 24u32) & 0xff) as u8,
    ;
}

/// The width field of bitmap `b`.
pub open spec fn bitmap_width(b: Seq<u8>) -> u32 {
    le32_at(b, WIDTH_OFFSET as int)
}

/// The height field of bitmap `b`.
pub open spec fn bitmap_height(b: Seq<u8>) -> u32 {
    le32_at(b, HEIGHT_OFFSET as int)
}

/// The first check that bitmap `b` fails, if any.
pub open spec fn bitmap_error(b: Seq<u8>) -> Option<BitmapError> {
    if b.len() < HEADER_LEN {
        Some(BitmapError::Truncated)
    } else if le32_at(b, HEADER_SIZE_OFFSET as int) != BMP_INFO_HEADER {
        Some(BitmapError::HeaderSize)
    } else if le16_at(b, BIT_DEPTH_OFFSET as int) != BMP_BIT_DEPTH {
        Some(BitmapError::BitDepth)
    } else if bitmap_width(b) * bitmap_height(b) != le32_at(b, DATA_SIZE_OFFSET as int) {
        Some(BitmapError::SizeMismatch)
    } else if b.len() < bitmap_width(b) * bitmap_height(b) {
        Some(BitmapError::MissingPixels)
    } else {
        None
    }
}

/// `out` is the decoded asset of the accepted bitmap `b`: its pixel rows
/// top-down (the source stores them bottom-up, ending at the end of the
/// buffer), then the width and height in little-endian.
pub open spec fn is_decoded(b: Seq<u8>, out: Seq<u8>) -> bool {
    let w = bitmap_width(b) as int;
    let h = bitmap_height(b) as int;
    &&& out.len() == w * h + TRAILER_LEN
    &&& forall|r: int, c: int|
        0 <= r < h && 0 <= c < w ==> #[trigger] out[r * w + c] == b[b.len() - (r + 1) * w + c]
    &&& out.subrange(w * h, w * h + 4) == le32_bytes(w as u32)
    &&& out.subrange(w * h + 4, w * h + 8) == le32_bytes(h as u32)
}

/// Row order is inverted: the first decoded row is the last row stored in
/// the bitmap, and the last decoded row is the first one stored.
pub proof fn lemma_row_inversion(b: Seq<u8>, out: Seq<u8>)
    requires
        bitmap_error(b).is_none(),
        is_decoded(b, out),
        bitmap_height(b) > 0,
    ensures
        forall|c: int|
            0 <= c < bitmap_width(b) ==> #[trigger] out[c] == b[b.len() - bitmap_width(b) + c],
        forall|c: int|
            0 <= c < bitmap_width(b) ==> #[trigger] out[(bitmap_height(b) - 1) * bitmap_width(b)
                + c] == b[b.len() - bitmap_height(b) * bitmap_width(b) + c],
{
    let w = bitmap_width(b) as int;
    let h = bitmap_height(b) as int;
    assert forall|c: int| 0 <= c < w implies #[trigger] out[c] == b[b.len() - w + c] by {
        assert(out[0 * w + c] == b[b.len() - (0 + 1) * w + c]);
    }
    assert forall|c: int| 0 <= c < w implies #[trigger] out[(h - 1) * w + c] == b[b.len() - h * w
        + c] by {
        assert(out[(h - 1) * w + c] == b[b.len() - ((h - 1) + 1) * w + c]);
    }
}

/// Reads the little-endian 16-bit integer at `offset`.
pub fn get_u16(buf: &[u8], offset: usize) -> (r: u16)
    requires
        offset + 2 <= buf@.len(),
    ensures
        r == le16_at(buf@, offset as int),
{
    (buf[offset] as u16) | ((buf[offset + 1] as u16) << 8u16)
}

/// Reads the little-endian 32-bit integer at `offset`.
pub fn get_u32(buf: &[u8], offset: usize) -> (r: u32)
    requires
        offset + 4 <= buf@.len(),
    ensures
        r == le32_at(buf@, offset as int),
{
    (buf[offset] as u32) | ((buf[offset + 1] as u32) << 8u32) | ((buf[offset + 2] as u32)
        << 16u32) | ((buf[offset + 3] as u32) << 24u32)
}

/// Appends the little-endian encoding of `x`.
fn push_le32(out: &mut Vec<u8>, x: u32)
    ensures
        final(out)@ == old(out)@ + le32_bytes(x),
{
    out.push((x & 0xff) as u8);
    out.push(((x >> 8u32) & 0xff) as u8);
    out.push(((x >> 16u32) & 0xff) as u8);
    out.push(((x >> 24u32) & 0xff) as u8);
    assert(final(out)@ =~= old(out)@ + le32_bytes(x));
}

/// Decodes an 8-bit indexed bitmap into its asset form: `width * height`
/// palette indices, top-down, followed by width and height as little-endian
/// 32-bit integers. The pixel rows are read from the end of the buffer,
/// last stored row first.
pub fn decode_bitmap(buf: &[u8]) -> (r: Result<Vec<u8>, BitmapError>)
    ensures
        match r {
            Ok(out) => bitmap_error(buf@).is_none() && is_decoded(buf@, out@),
            Err(e) => bitmap_error(buf@) == Some(e),
        },
{
    if buf.len() < HEADER_LEN {
        return Err(BitmapError::Truncated);
    }
    if get_u32(buf, HEADER_SIZE_OFFSET) != BMP_INFO_HEADER {
        return Err(BitmapError::HeaderSize);
    }
    if get_u16(buf, BIT_DEPTH_OFFSET) != BMP_BIT_DEPTH {
        return Err(BitmapError::BitDepth);
    }
    let width = get_u32(buf, WIDTH_OFFSET);
    let height = get_u32(buf, HEIGHT_OFFSET);
    let data_size = get_u32(buf, DATA_SIZE_OFFSET);
    assert((width as int) * (height as int) <= u32::MAX as int * u32::MAX as int) by (nonlinear_arith)
        requires
            width <= u32::MAX,
            height <= u32::MAX,
    ;
    let size: u64 = width as u64 * height as u64;
    if size != data_size as u64 {
        return Err(BitmapError::SizeMismatch);
    }
    if (buf.len() as u64) < size {
        return Err(BitmapError::MissingPixels);
    }
    let w = width as usize;
    let h = height as usize;
    let len = buf.len();
    let mut out: Vec<u8> = Vec::new();
    let mut src: usize = len;
    let mut row: usize = 0;
    while row < h
        invariant
            buf@.len() == len,
            w == width,
            h == height,
            w * h <= len,
            row <= h,
            src == len - row * w,
            out@.len() == row * w,
            forall|r: int, c: int|
                0 <= r < row && 0 <= c < w ==> #[trigger] out@[r * w + c] == buf@[len - (r + 1)
                    * w + c],
        decreases h - row,
    {
        assert((row + 1) * w <= h * w) by (nonlinear_arith)
            requires
                row < h,
        ;
        assert((row + 1) * w == row * w + w) by (nonlinear_arith);
        src = src - w;
        let mut col: usize = 0;
        while col < w
            invariant
                buf@.len() == len,
                w == width,
                h == height,
                row < h,
                src == len - (row + 1) * w,
                src + w <= len,
                col <= w,
                out@.len() == row * w + col,
                forall|r: int, c: int|
                    0 <= r < row && 0 <= c < w ==> #[trigger] out@[r * w + c] == buf@[len - (r
                        + 1) * w + c],
                forall|c: int| 0 <= c < col ==> #[trigger] out@[row * w + c] == buf@[src + c],
            decreases w - col,
        {
            out.push(buf[src + col]);
            col = col + 1;
            assert forall|r: int, c: int|
                0 <= r < row && 0 <= c < w implies #[trigger] out@[r * w + c] == buf@[len - (r
                    + 1) * w + c] by {
                assert(r * w + c < row * w) by (nonlinear_arith)
                    requires
                        r < row,
                        c < w,
                ;
            }
        }
        row = row + 1;
        assert forall|r: int, c: int|
            0 <= r < row && 0 <= c < w implies #[trigger] out@[r * w + c] == buf@[len - (r + 1)
                * w + c] by {
            if r == row - 1 {
                assert(out@[r * w + c] == buf@[src + c]);
            }
        }
    }
    let ghost pixels = out@;
    push_le32(&mut out, width);
    push_le32(&mut out, height);
    assert(out@.subrange(w * h, w * h + 4) =~= le32_bytes(width));
    assert(out@.subrange(w * h + 4, w * h + 8) =~= le32_bytes(height));
    assert forall|r: int, c: int|
        0 <= r < h && 0 <= c < w implies #[trigger] out@[r * w + c] == buf@[len - (r + 1) * w
            + c] by {
        assert(r * w + c < h * w) by (nonlinear_arith)
            requires
                r < h,
                c < w,
        ;
        assert(out@[r * w + c] == pixels[r * w + c]);
    }
    Ok(out)
}

} // verus!
