use vstd::prelude::*;
use crate::bitmap::{
    bitmap_error, bitmap_height, bitmap_width, get_u32, is_decoded, le32_at, le32_bytes,
    lemma_le32_round_trip, TRAILER_LEN,
};
use crate::palette::{all_indices_valid, expand_palette, expanded};

verus! {

/// Why a decoded asset cannot become a texture.
#[derive(Clone, Copy, Debug, PartialEq, Eq, Structural)]
pub enum AssetError {
    /// Shorter than its 8-byte width/height trailer.
    Truncated,
    /// The index buffer length differs from `width * height`.
    SizeMismatch,
    /// An index is not a palette index.
    BadIndex,
}

/// An RGBA image ready for upload to the host: four bytes per pixel.
#[derive(Clone, Debug)]
pub struct Texture {
    pub width: u32,
    pub height: u32,
    pub rgba: Vec<u8>,
}

/// The width stored in the trailer of asset `a`.
pub open spec fn asset_width(a: Seq<u8>) -> u32 {
    le32_at(a, a.len() - 8)
}

/// The height stored in the trailer of asset `a`.
pub open spec fn asset_height(a: Seq<u8>) -> u32 {
    le32_at(a, a.len() - 4)
}

/// The palette indices of asset `a`: everything before the trailer.
pub open spec fn asset_indices(a: Seq<u8>) -> Seq<u8> {
    a.subrange(0, a.len() - 8)
}

/// The dimensions recorded in asset `a`, when its index buffer holds exactly
/// `width * height` bytes.
pub open spec fn asset_dims(a: Seq<u8>) -> Option<(u32, u32)> {
    if a.len() < TRAILER_LEN {
        None
    } else if asset_width(a) * asset_height(a) != a.len() - 8 {
        None
    } else {
        Some((asset_width(a), asset_height(a)))
    }
}

/// The first reason why asset `a` cannot become a texture, if any.
pub open spec fn asset_error(a: Seq<u8>) -> Option<AssetError> {
    if a.len() < TRAILER_LEN {
        Some(AssetError::Truncated)
    } else if asset_width(a) * asset_height(a) != a.len() - 8 {
        Some(AssetError::SizeMismatch)
    } else if !all_indices_valid(asset_indices(a)) {
        Some(AssetError::BadIndex)
    } else {
        None
    }
}

/// A decoded bitmap, read back as an asset, yields the bitmap's own width
/// and height, and its index buffer is exactly `width * height` bytes.
pub proof fn lemma_metadata_round_trip(b: Seq<u8>, out: Seq<u8>)
    requires
        bitmap_error(b).is_none(),
        is_decoded(b, out),
    ensures
        asset_dims(out) == Some((bitmap_width(b), bitmap_height(b))),
        asset_indices(out).len() == (bitmap_width(b) as int) * (bitmap_height(b) as int),
{
    let n = (bitmap_width(b) as int) * (bitmap_height(b) as int);
    let wb = out.subrange(n, n + 4);
    let hb = out.subrange(n + 4, n + 8);
    lemma_le32_round_trip(bitmap_width(b));
    lemma_le32_round_trip(bitmap_height(b));
    assert(le32_at(out, n) == le32_at(wb, 0));
    assert(le32_at(out, n + 4) == le32_at(hb, 0));
    assert(wb == le32_bytes(bitmap_width(b)));
}

/// Reads the width and height from the trailer of a decoded asset, height
/// from the last four bytes and width from the four before, and checks that
/// the index buffer holds `width * height` bytes.
pub fn split_asset(asset: &[u8]) -> (r: Result<(u32, u32), AssetError>)
    ensures
        match r {
            Ok(d) => asset_dims(asset@) == Some(d),
            Err(e) => {
                &&& asset_dims(asset@).is_none()
                &&& e == (if asset@.len() < TRAILER_LEN {
                    AssetError::Truncated
                } else {
                    AssetError::SizeMismatch
                })
            },
        },
{
    let len = asset.len();
    if len < TRAILER_LEN {
        return Err(AssetError::Truncated);
    }
    let height = get_u32(asset, len - 4);
    let width = get_u32(asset, len - 8);
    let n: u64 = (len - 8) as u64;
    assert((width as int) * (height as int) <= u32::MAX as int * u32::MAX as int) by (nonlinear_arith)
        requires
            width <= u32::MAX,
            height <= u32::MAX,
    ;
    if width as u64 * height as u64 != n {
        return Err(AssetError::SizeMismatch);
    }
    Ok((width, height))
}

/// Turns a decoded asset into an RGBA texture through the palette.
pub fn prepare_texture(asset: &[u8]) -> (r: Result<Texture, AssetError>)
    ensures
        match r {
            Ok(t) => {
                &&& asset_error(asset@).is_none()
                &&& t.width == asset_width(asset@)
                &&& t.height == asset_height(asset@)
                &&& t.rgba@ == expanded(asset_indices(asset@))
                &&& t.rgba@.len() == 4 * (t.width as int) * (t.height as int)
            },
            Err(e) => asset_error(asset@) == Some(e),
        },
{
    let (width, height) = match split_asset(asset) {
        Ok(d) => d,
        Err(e) => {
            return Err(e);
        },
    };
    let (indices, _trailer) = asset.split_at(asset.len() - 8);
    match expand_palette(indices) {
        Some(rgba) => {
            assert(4 * (width as int) * (height as int) == 4 * ((width as int) * (height as int)))
                by (nonlinear_arith);
            Ok(Texture { width, height, rgba })
        },
        None => Err(AssetError::BadIndex),
    }
}

} // verus!
