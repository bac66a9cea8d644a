//! Pixel colours handed to a renderer.

use vstd::prelude::*;

verus! {

/// The 0x00RRGGBB value of a colour given by its three channels.
pub open spec fn rgb(r: u8, g: u8, b: u8) -> int {
    r as int * 0x10000 + g as int * 0x100 + b as int
}

/// Packs three 8-bit channels into one 0x00RRGGBB word.
pub fn from_u8_rgb(r: u8, g: u8, b: u8) -> (c: u32)
    ensures
        c == rgb(r, g, b),
{
    let (r, g, b) = (r as u32, g as u32, b as u32);
    let c = (r << 16) | (g << 8) | b;
    assert(c == r * 0x10000 + g * 0x100 + b) by (bit_vector)
        requires
            r < 256,
            g < 256,
            b < 256,
            c == (r << 16) | (g << 8) | b,
    ;
    c
}

/// The colour of a lit pixel.
pub open spec fn lit_color() -> int {
    rgb(200, 200, 100)
}

/// The colour in which a pixel is presented: dark when unlit.
pub open spec fn color_of(lit: bool) -> int {
    if lit { lit_color() } else { 0 }
}

/// The colour in which a pixel is presented.
pub fn pixel_color(lit: bool) -> (c: u32)
    ensures
        c == color_of(lit),
{
    if lit {
        from_u8_rgb(200, 200, 100)
    } else {
        0
    }
}

} // verus!
