use engine_core::bitmap::{decode_bitmap, get_u16, get_u32, BitmapError};
use engine_core::palette::expand_palette;
use engine_core::texture::{prepare_texture, split_asset, AssetError};

const PALETTE: [[u8; 4]; 16] = [
    [0x00, 0x00, 0x00, 0x00],
    [0x00, 0x00, 0x00, 0xff],
    [0x3e, 0xb8, 0x49, 0xff],
    [0x74, 0xd0, 0x7d, 0xff],
    [0x59, 0x55, 0xe0, 0xff],
    [0x80, 0x76, 0xf1, 0xff],
    [0xb9, 0x5e, 0x51, 0xff],
    [0x65, 0xdb, 0xef, 0xff],
    [0xdb, 0x65, 0x59, 0xff],
    [0xff, 0x89, 0x7d, 0xff],
    [0xcc, 0xc3, 0x5e, 0xff],
    [0xde, 0xd0, 0x87, 0xff],
    [0x3a, 0xa2, 0x41, 0xff],
    [0xb7, 0x66, 0xb5, 0xff],
    [0xcc, 0xcc, 0xcc, 0xff],
    [0xff, 0xff, 0xff, 0xff],
];

fn put_u32(buf: &mut [u8], at: usize, x: u32) {
    buf[at..at + 4].copy_from_slice(&x.to_le_bytes());
}

/// A bitmap with a 54-byte header (plus a 1024-byte color table) and the
/// given stored rows, bottom row first.
fn make_bitmap(width: u32, height: u32, stored_rows: &[Vec<u8>]) -> Vec<u8> {
    let mut buf = vec![0u8; 54 + 1024];
    buf[0] = b'B';
    buf[1] = b'M';
    put_u32(&mut buf, 0x0e, 40);
    put_u32(&mut buf, 0x12, width);
    put_u32(&mut buf, 0x16, height);
    buf[0x1c] = 8;
    put_u32(&mut buf, 0x22, width * height);
    for row in stored_rows {
        buf.extend_from_slice(row);
    }
    buf
}

/// Stored row `i` is filled with the byte `i`.
fn striped_bitmap(width: u32, height: u32) -> Vec<u8> {
    let rows: Vec<Vec<u8>> = (0..height).map(|i| vec![i as u8; width as usize]).collect();
    make_bitmap(width, height, &rows)
}

#[test]
fn row_inversion_puts_last_stored_row_first() {
    let (w, h) = (5usize, 4usize);
    let out = decode_bitmap(&striped_bitmap(w as u32, h as u32)).unwrap();
    assert_eq!(out.len(), w * h + 8);
    assert_eq!(&out[0..w], &[3u8; 5][..]);
    assert_eq!(&out[(h - 1) * w..h * w], &[0u8; 5][..]);
    for r in 0..h {
        assert!(out[r * w..(r + 1) * w].iter().all(|&b| b == (h - 1 - r) as u8));
    }
}

#[test]
fn decode_distinct_pixels_mirrors_rows_only() {
    let rows = vec![vec![1, 2, 3], vec![4, 5, 6]];
    let out = decode_bitmap(&make_bitmap(3, 2, &rows)).unwrap();
    assert_eq!(out, vec![4, 5, 6, 1, 2, 3, 3, 0, 0, 0, 2, 0, 0, 0]);
}

#[test]
fn decode_appends_width_then_height() {
    let out = decode_bitmap(&striped_bitmap(300, 2)).unwrap();
    let n = out.len();
    assert_eq!(&out[n - 8..n - 4], &300u32.to_le_bytes());
    assert_eq!(&out[n - 4..], &2u32.to_le_bytes());
}

#[test]
fn decode_empty_image() {
    let out = decode_bitmap(&make_bitmap(0, 0, &[])).unwrap();
    assert_eq!(out, vec![0; 8]);
}

#[test]
fn decode_rejects_short_header() {
    assert_eq!(decode_bitmap(&[0u8; 37]), Err(BitmapError::Truncated));
    assert_eq!(decode_bitmap(&[]), Err(BitmapError::Truncated));
}

#[test]
fn decode_rejects_other_header_size() {
    let mut b = striped_bitmap(2, 2);
    put_u32(&mut b, 0x0e, 124);
    assert_eq!(decode_bitmap(&b), Err(BitmapError::HeaderSize));
}

#[test]
fn decode_rejects_other_bit_depth() {
    let mut b = striped_bitmap(2, 2);
    b[0x1c] = 24;
    assert_eq!(decode_bitmap(&b), Err(BitmapError::BitDepth));
}

#[test]
fn decode_rejects_data_size_mismatch() {
    let mut b = striped_bitmap(2, 2);
    put_u32(&mut b, 0x22, 5);
    assert_eq!(decode_bitmap(&b), Err(BitmapError::SizeMismatch));
}

#[test]
fn decode_rejects_missing_pixels() {
    let mut b = vec![0u8; 40];
    put_u32(&mut b, 0x0e, 40);
    put_u32(&mut b, 0x12, 10);
    put_u32(&mut b, 0x16, 10);
    b[0x1c] = 8;
    put_u32(&mut b, 0x22, 100);
    assert_eq!(decode_bitmap(&b), Err(BitmapError::MissingPixels));
}

#[test]
fn header_fields_read_little_endian() {
    let b = [0x01, 0x02, 0x03, 0x04, 0x05];
    assert_eq!(get_u16(&b, 0), 0x0201);
    assert_eq!(get_u16(&b, 3), 0x0504);
    assert_eq!(get_u32(&b, 0), 0x04030201);
    assert_eq!(get_u32(&b, 1), 0x05040302);
}

#[test]
fn metadata_round_trip() {
    for &(w, h) in &[(1u32, 1u32), (16, 8), (7, 3), (256, 2)] {
        let asset = decode_bitmap(&striped_bitmap(w, h)).unwrap();
        assert_eq!(split_asset(&asset), Ok((w, h)));
    }
}

#[test]
fn split_rejects_wrong_index_length() {
    let mut asset = decode_bitmap(&striped_bitmap(4, 4)).unwrap();
    asset.remove(0);
    assert_eq!(split_asset(&asset), Err(AssetError::SizeMismatch));
    assert_eq!(prepare_texture(&asset).unwrap_err(), AssetError::SizeMismatch);
}

#[test]
fn split_rejects_short_asset() {
    assert_eq!(split_asset(&[1, 0, 0, 0, 1, 0, 0]), Err(AssetError::Truncated));
    assert_eq!(prepare_texture(&[]).unwrap_err(), AssetError::Truncated);
}

#[test]
fn palette_expansion_of_every_index() {
    let indices: Vec<u8> = (0..16).collect();
    let rgba = expand_palette(&indices).unwrap();
    assert_eq!(rgba.len(), 64);
    for i in 0..16 {
        assert_eq!(&rgba[4 * i..4 * i + 4], &PALETTE[i][..]);
    }
}

#[test]
fn palette_first_entries_are_transparent_then_black() {
    assert_eq!(expand_palette(&[0, 1]).unwrap(), vec![0, 0, 0, 0, 0, 0, 0, 0xff]);
    assert_eq!(expand_palette(&[]).unwrap(), Vec::<u8>::new());
}

#[test]
fn palette_rejects_index_past_table() {
    assert_eq!(expand_palette(&[0, 16]), None);
    assert_eq!(expand_palette(&[255]), None);
}

#[test]
fn prepare_texture_expands_decoded_asset() {
    let rows = vec![vec![2, 15], vec![0, 1]];
    let asset = decode_bitmap(&make_bitmap(2, 2, &rows)).unwrap();
    let t = prepare_texture(&asset).unwrap();
    assert_eq!((t.width, t.height), (2, 2));
    let mut expected = Vec::new();
    for &i in &[0usize, 1, 2, 15] {
        expected.extend_from_slice(&PALETTE[i]);
    }
    assert_eq!(t.rgba, expected);
}

#[test]
fn prepare_texture_rejects_bad_index() {
    let asset = vec![3, 17, 2, 0, 0, 0, 1, 0, 0, 0];
    assert_eq!(prepare_texture(&asset).unwrap_err(), AssetError::BadIndex);
}
