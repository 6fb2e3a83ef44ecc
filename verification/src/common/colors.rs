//! Colors as the emulated displays produce them.
use vstd::prelude::*;

verus! {

/// A color with red, green, blue and alpha (opacity) channels.
#[derive(Debug, Clone, Copy, PartialEq, Eq, Structural)]
pub struct Rgba {
    pub r: u8,
    pub g: u8,
    pub b: u8,
    pub a: u8,
}

/// Opaque black, the color of a display before anything is drawn on it.
pub open spec fn black() -> Rgba {
    Rgba { r: 0, g: 0, b: 0, a: 0xFF }
}

/// An opaque color given as a 3-byte RGB number, red in the most significant
/// byte.
pub open spec fn rgb_color(color: u32) -> Rgba {
    Rgba {
        r: ((color / 0x10000) % 256) as u8,
        g: ((color / 0x100) % 256) as u8,
        b: (color % 256) as u8,
        a: 0xFF,
    }
}

/// Opaque black.
pub fn opaque_black() -> (c: Rgba)
    ensures
        c == black(),
{
    Rgba { r: 0, g: 0, b: 0, a: 0xFF }
}

proof fn lemma_channels(color: u32)
    ensures
        ((color & 0xFF0000) >> 16) as u8 == ((color / 0x10000) % 256) as u8,
        ((color & 0xFF00) >> 8) as u8 == ((color / 0x100) % 256) as u8,
        (color & 0xFF) as u8 == (color % 256) as u8,
{
    assert(((color & 0xFF0000) >> 16) as u8 == ((color / 0x10000) % 256) as u8 && ((color & 0xFF00)
        >> 8) as u8 == ((color / 0x100) % 256) as u8 && (color & 0xFF) as u8 == (color % 256) as u8)
        by (bit_vector);
}

/// Creates a palette of opaque colors, one for each 3-byte RGB number.
pub fn create_palette(colors: &[u32]) -> (palette: Vec<Rgba>)
    ensures
        palette@ == colors@.map_values(|c: u32| rgb_color(c)),
{
    let mut palette: Vec<Rgba> = Vec::new();
    let mut i: usize = 0;
    while i < colors.len()
        invariant
            i <= colors@.len(),
            palette@ == colors@.subrange(0, i as int).map_values(|c: u32| rgb_color(c)),
        decreases colors@.len() - i,
    {
        let color = colors[i];
        proof {
            lemma_channels(color);
        }
        palette.push(
            Rgba {
                r: ((color & 0xFF0000) >> 16) as u8,
                g: ((color & 0xFF00) >> 8) as u8,
                b: (color & 0xFF) as u8,
                a: 0xFF,
            },
        );
        assert(colors@.subrange(0, i + 1) == colors@.subrange(0, i as int).push(color));
        i = i + 1;
    }
    assert(colors@.subrange(0, colors@.len() as int) == colors@);
    palette
}

} // verus!
