//! Packed 32-bit pixels: byte 3 is the opaque alpha `0xFF`, byte 2 red,
//! byte 1 green, byte 0 blue.
use vstd::prelude::*;

verus! {

/// The packed pixel with the given channel levels and an opaque alpha byte.
pub open spec fn packed(r: u8, g: u8, b: u8) -> u32 {
    (0xFF00_0000 + r * 0x1_0000 + g * 0x100 + b) as u32
}

/// Byte 3 of a packed pixel.
pub open spec fn alpha_of(color: u32) -> u8 {
    (color / 0x100_0000) as u8
}

/// Byte 2 of a packed pixel.
pub open spec fn red_of(color: u32) -> u8 {
    ((color / 0x1_0000) % 0x100) as u8
}

/// Byte 1 of a packed pixel.
pub open spec fn green_of(color: u32) -> u8 {
    ((color / 0x100) % 0x100) as u8
}

/// Byte 0 of a packed pixel.
pub open spec fn blue_of(color: u32) -> u8 {
    (color % 0x100) as u8
}

/// Packs three channel levels into one opaque pixel.
pub fn pack_color(r: u8, g: u8, b: u8) -> (color: u32)
    ensures
        color == packed(r, g, b),
{
    let wide_r: u32 = r as u32;
    let wide_g: u32 = g as u32;
    let wide_b: u32 = b as u32;
    assert((255u32 << 24) == 0xFF00_0000u32) by (bit_vector);
    assert((wide_r << 16) == wide_r * 0x1_0000) by (bit_vector)
        requires
            wide_r < 0x100,
    ;
    assert((wide_g << 8) == wide_g * 0x100) by (bit_vector)
        requires
            wide_g < 0x100,
    ;
    (255u32 << 24) + (wide_r << 16) + (wide_g << 8) + wide_b
}

/// The red level of a packed pixel.
pub fn red(color: u32) -> (level: u8)
    ensures
        level == red_of(color),
{
    assert(((color >> 16) & 0xFF) == (color / 0x1_0000) % 0x100) by (bit_vector);
    ((color >> 16) & 0xFF) as u8
}

/// The green level of a packed pixel.
pub fn green(color: u32) -> (level: u8)
    ensures
        level == green_of(color),
{
    assert(((color >> 8) & 0xFF) == (color / 0x100) % 0x100) by (bit_vector);
    ((color >> 8) & 0xFF) as u8
}

/// The blue level of a packed pixel.
pub fn blue(color: u32) -> (level: u8)
    ensures
        level == blue_of(color),
{
    assert((color & 0xFF) == color % 0x100) by (bit_vector);
    (color & 0xFF) as u8
}

/// Packing is lossless: every channel reads back as it was written, and the
/// alpha byte of a packed pixel is fully opaque.
pub proof fn lemma_pack_round_trip(r: u8, g: u8, b: u8)
    ensures
        red_of(packed(r, g, b)) == r,
        green_of(packed(r, g, b)) == g,
        blue_of(packed(r, g, b)) == b,
        alpha_of(packed(r, g, b)) == 0xFF,
{
}

/// An opaque pixel is determined by its three channels.
pub proof fn lemma_opaque_is_packed(color: u32)
    requires
        alpha_of(color) == 0xFF,
    ensures
        color == packed(red_of(color), green_of(color), blue_of(color)),
{
}

} // verus!
