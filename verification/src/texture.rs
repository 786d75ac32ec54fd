//! The UV debug texture: an eight-by-eight grid of RGBA pixels built from a
//! fixed palette of eight colours, each row reading the palette rotated
//! right by one more pixel (four bytes) than the row above it.

use vstd::prelude::*;

verus! {

/// The palette: eight RGBA pixels, thirty-two bytes.
pub open spec fn spec_palette() -> Seq<u8> {
    seq![
        255u8, 102u8, 159u8, 255u8,
        255u8, 159u8, 102u8, 255u8,
        236u8, 255u8, 102u8, 255u8,
        121u8, 255u8, 102u8, 255u8,
        102u8, 255u8, 198u8, 255u8,
        102u8, 198u8, 255u8, 255u8,
        121u8, 102u8, 255u8, 255u8,
        236u8, 102u8, 255u8, 255u8,
    ]
}

/// Byte `i` of the texture data: row `i / 32` reads the palette rotated
/// right by four bytes per row, so byte `j` of that row is palette byte
/// `(j + 28 * (i / 32)) % 32`.
pub open spec fn texel_byte(i: int) -> u8 {
    spec_palette()[((i % 32) + 28 * (i / 32)) % 32]
}

/// The debug texture's pixel data: eight rows of eight RGBA pixels,
/// 256 bytes, every byte as [`texel_byte`] gives it.
pub fn uv_debug_texture_data() -> (data: Vec<u8>)
    ensures
        data@.len() == 256,
        forall|i: int| 0 <= i < 256 ==> data@[i] == texel_byte(i),
{
    let mut palette: Vec<u8> = Vec::new();
    palette.push(255);
    palette.push(102);
    palette.push(159);
    palette.push(255);
    palette.push(255);
    palette.push(159);
    palette.push(102);
    palette.push(255);
    palette.push(236);
    palette.push(255);
    palette.push(102);
    palette.push(255);
    palette.push(121);
    palette.push(255);
    palette.push(102);
    palette.push(255);
    palette.push(102);
    palette.push(255);
    palette.push(198);
    palette.push(255);
    palette.push(102);
    palette.push(198);
    palette.push(255);
    palette.push(255);
    palette.push(121);
    palette.push(102);
    palette.push(255);
    palette.push(255);
    palette.push(236);
    palette.push(102);
    palette.push(255);
    palette.push(255);
    proof {
        assert(palette@ =~= spec_palette());
    }

    let mut data: Vec<u8> = Vec::new();
    let mut i: usize = 0;
    while i < 256
        invariant
            palette@ == spec_palette(),
            palette@.len() == 32,
            i <= 256,
            data@.len() == i,
            forall|k: int| 0 <= k < i ==> data@[k] == texel_byte(k),
        decreases 256 - i,
    {
        let idx: usize = (i % 32 + 28 * (i / 32)) % 32;
        data.push(palette[idx]);
        i = i + 1;
    }
    data
}

} // verus!
