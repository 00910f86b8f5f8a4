use vstd::prelude::*;

verus! {

/// Number of entries in the palette.
pub const PALETTE_SIZE: u8 = 16;

/// The fixed palette, as `(r, g, b, a)`. Index 0 is fully transparent and
/// index 1 is opaque black.
pub open spec fn palette_color(i: int) -> (u8, u8, u8, u8) {
    if i == 0 { (0x00, 0x00, 0x00, 0x00) }        // transparent
    else if i == 1 { (0x00, 0x00, 0x00, 0xff) }   // black
    else if i == 2 { (0x3e, 0xb8, 0x49, 0xff) }   // medium green
    else if i == 3 { (0x74, 0xd0, 0x7d, 0xff) }   // light green
    else if i == 4 { (0x59, 0x55, 0xe0, 0xff) }   // dark blue
    else if i == 5 { (0x80, 0x76, 0xf1, 0xff) }   // light blue
    else if i == 6 { (0xb9, 0x5e, 0x51, 0xff) }   // dark red
    else if i == 7 { (0x65, 0xdb, 0xef, 0xff) }   // cyan
    else if i == 8 { (0xdb, 0x65, 0x59, 0xff) }   // medium red
    else if i == 9 { (0xff, 0x89, 0x7d, 0xff) }   // light red
    else if i == 10 { (0xcc, 0xc3, 0x5e, 0xff) }  // dark yellow
    else if i == 11 { (0xde, 0xd0, 0x87, 0xff) }  // light yellow
    else if i == 12 { (0x3a, 0xa2, 0x41, 0xff) }  // dark green
    else if i == 13 { (0xb7, 0x66, 0xb5, 0xff) }  // magenta
    else if i == 14 { (0xcc, 0xcc, 0xcc, 0xff) }  // gray
    else { (0xff, 0xff, 0xff, 0xff) }             // white
}

/// The RGBA bytes of palette entry `i`.
pub open spec fn palette_bytes(i: int) -> Seq<u8> {
    let c = palette_color(i);
    seq![c.0, c.1, c.2, c.3]
}

/// Every index is a valid palette index.
pub open spec fn all_indices_valid(indices: Seq<u8>) -> bool {
    forall|i: int| 0 <= i < indices.len() ==> indices[i] < PALETTE_SIZE
}

/// The RGBA expansion of a sequence of palette indices: four bytes per index.
pub open spec fn expanded(indices: Seq<u8>) -> Seq<u8>
    decreases indices.len(),
{
    if indices.len() == 0 {
        seq![]
    } else {
        expanded(indices.drop_last()) + palette_bytes(indices.last() as int)
    }
}

/// Looks up palette entry `i`.
pub fn palette_color_of(i: u8) -> (r: (u8, u8, u8, u8))
    requires
        i < PALETTE_SIZE,
    ensures
        r == palette_color(i as int),
{
    match i {
        0 => (0x00, 0x00, 0x00, 0x00),
        1 => (0x00, 0x00, 0x00, 0xff),
        2 => (0x3e, 0xb8, 0x49, 0xff),
        3 => (0x74, 0xd0, 0x7d, 0xff),
        4 => (0x59, 0x55, 0xe0, 0xff),
        5 => (0x80, 0x76, 0xf1, 0xff),
        6 => (0xb9, 0x5e, 0x51, 0xff),
        7 => (0x65, 0xdb, 0xef, 0xff),
        8 => (0xdb, 0x65, 0x59, 0xff),
        9 => (0xff, 0x89, 0x7d, 0xff),
        10 => (0xcc, 0xc3, 0x5e, 0xff),
        11 => (0xde, 0xd0, 0x87, 0xff),
        12 => (0x3a, 0xa2, 0x41, 0xff),
        13 => (0xb7, 0x66, 0xb5, 0xff),
        14 => (0xcc, 0xcc, 0xcc, 0xff),
        _ => (0xff, 0xff, 0xff, 0xff),
    }
}

/// Each index of the expansion of `indices` holds the palette bytes of the
/// matching index.
pub proof fn lemma_expanded_entries(indices: Seq<u8>)
    ensures
        expanded(indices).len() == 4 * indices.len(),
        forall|i: int, k: int|
            0 <= i < indices.len() && 0 <= k < 4 ==> #[trigger] expanded(indices)[4 * i + k]
                == palette_bytes(indices[i] as int)[k],
    decreases indices.len(),
{
    if indices.len() > 0 {
        let init = indices.drop_last();
        lemma_expanded_entries(init);
        assert forall|i: int, k: int|
            0 <= i < indices.len() && 0 <= k < 4 implies #[trigger] expanded(indices)[4 * i + k]
                == palette_bytes(indices[i] as int)[k] by {
            if i < init.len() {
                assert(indices[i] == init[i]);
            }
        }
    }
}

/// Expands palette indices into RGBA bytes, or `None` when an index is not
/// a palette index.
pub fn expand_palette(indices: &[u8]) -> (r: Option<Vec<u8>>)
    ensures
        r.is_some() <==> all_indices_valid(indices@),
        r.is_some() ==> r.unwrap()@ == expanded(indices@),
        r.is_some() ==> r.unwrap()@.len() == 4 * indices@.len(),
        r.is_some() ==> forall|i: int, k: int|
            0 <= i < indices@.len() && 0 <= k < 4 ==> #[trigger] r.unwrap()@[4 * i + k]
                == palette_bytes(indices@[i] as int)[k],
{
    let mut out: Vec<u8> = Vec::new();
    let mut i: usize = 0;
    while i < indices.len()
        invariant
            i <= indices@.len(),
            all_indices_valid(indices@.subrange(0, i as int)),
            out@ == expanded(indices@.subrange(0, i as int)),
        decreases indices.len() - i,
    {
        let ix = indices[i];
        if ix >= PALETTE_SIZE {
            assert(!all_indices_valid(indices@));
            return None;
        }
        let c = palette_color_of(ix);
        out.push(c.0);
        out.push(c.1);
        out.push(c.2);
        out.push(c.3);
        let ghost next = indices@.subrange(0, i + 1);
        assert(next.drop_last() =~= indices@.subrange(0, i as int));
        i = i + 1;
        assert(out@ =~= expanded(next));
    }
    assert(indices@.subrange(0, i as int) =~= indices@);
    proof {
        lemma_expanded_entries(indices@);
    }
    Some(out)
}

} // verus!
