use vstd::prelude::*;

verus! {

/// An opaque color as 8-bit channels.
#[derive(Clone, Copy, Debug, PartialEq, Eq, Structural)]
pub struct Rgb {
    pub r: u8,
    pub g: u8,
    pub b: u8,
}

/// The shade that follows `shade` in the window's clear-color cycle, which runs through
/// `0..255`.
pub open spec fn next_shade(shade: u8) -> u8 {
    ((shade + 1) % 255) as u8
}

/// One step of the window's clear-color cycle: the next shade, and the color it paints,
/// fading from blue to red.
pub fn cycle_clear_color(shade: u8) -> (r: (u8, Rgb))
    requires
        shade < 255,
    ensures
        r.0 == next_shade(shade),
        r.0 < 255,
        r.1 == (Rgb { r: r.0, g: 64, b: (255 - r.0) as u8 }),
{
    let next: u8 = (shade + 1) % 255;
    (next, Rgb { r: next, g: 64, b: 255 - next })
}

} // verus!
