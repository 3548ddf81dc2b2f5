use vstd::prelude::*;

verus! {

pub const COLOR_0: u32 = 0xFF9BBC0F;  // WHITE
pub const COLOR_1: u32 = 0xFF8BAC0F;  // LIGHT GRAY
pub const COLOR_2: u32 = 0xFF306230;  // DARK GRAY
pub const COLOR_3: u32 = 0xFF0F380F;  // BLACK

/// The shade (0 to 3) that a palette byte gives to the color number `index` (0 to 3):
/// bits 2*index+1 and 2*index of the palette.
pub open spec fn palette_shade(palette: u8, index: u8) -> u8 {
    (palette >> (index * 2) as u8) % 4
}

/// The ARGB color of a shade.
pub open spec fn shade_color(shade: u8) -> u32 {
    if shade == 3 {
        COLOR_3
    } else if shade == 2 {
        COLOR_2
    } else if shade == 1 {
        COLOR_1
    } else {
        COLOR_0
    }
}

/// A monochrome palette register (BGP, OBP0, OBP1): two bits of shade per color number.
#[derive(Clone, Copy, Debug, PartialEq, Eq, Structural)]
pub struct Palette {
    pub palette: u8,
}

impl Default for Palette {
    fn default() -> (r: Palette)
        ensures
            r.palette == 0,
    {
        Palette { palette: 0 }
    }
}

impl From<Palette> for u8 {
    fn from(value: Palette) -> (r: u8)
        ensures
            r == value.palette,
    {
        value.palette
    }
}

impl vstd::std_specs::convert::FromSpecImpl<Palette> for u8 {
    open spec fn obeys_from_spec() -> bool {
        true
    }

    open spec fn from_spec(v: Palette) -> u8 {
        v.palette
    }
}

impl From<u8> for Palette {
    fn from(value: u8) -> (r: Palette)
        ensures
            r.palette == value,
    {
        Self { palette: value }
    }
}

impl vstd::std_specs::convert::FromSpecImpl<u8> for Palette {
    open spec fn obeys_from_spec() -> bool {
        true
    }

    open spec fn from_spec(v: u8) -> Palette {
        Palette { palette: v }
    }
}

impl From<Palette> for u32 {
    fn from(value: Palette) -> (r: u32)
        ensures
            r == value.palette,
    {
        value.palette as u32
    }
}

impl vstd::std_specs::convert::FromSpecImpl<Palette> for u32 {
    open spec fn obeys_from_spec() -> bool {
        true
    }

    open spec fn from_spec(v: Palette) -> u32 {
        v.palette as u32
    }
}

impl Palette {
    /// The shade of color number `index`.
    pub fn palette_color_index(&self, index: u8) -> (r: u8)
        requires
            index < 4,
        ensures
            r == palette_shade(self.palette, index),
            r < 4,
    {
        let shift: u8 = index * 2;
        (self.palette >> shift) % 4
    }

    /// The ARGB color of color number `index`.
    pub fn palette_color(&self, index: u8) -> (r: u32)
        requires
            index < 4,
        ensures
            r == shade_color(palette_shade(self.palette, index)),
    {
        let shade = self.palette_color_index(index);
        if shade == 3 {
            COLOR_3
        } else if shade == 2 {
            COLOR_2
        } else if shade == 1 {
            COLOR_1
        } else {
            COLOR_0
        }
    }
}

/// Colour index `i` of a palette takes the shade in bits 2i+1 and 2i of the palette byte:
/// index 0 the lowest two bits up to index 3 the highest two.
pub proof fn lemma_palette_shade(palette: u8)
    ensures
        palette_shade(palette, 0) == palette % 4,
        palette_shade(palette, 1) == (palette / 4) % 4,
        palette_shade(palette, 2) == (palette / 16) % 4,
        palette_shade(palette, 3) == palette / 64,
{
    assert((palette >> 0u8) % 4 == palette % 4 && (palette >> 2u8) % 4 == (palette / 4) % 4 && (
    palette >> 4u8) % 4 == (palette / 16) % 4 && (palette >> 6u8) % 4 == palette / 64)
        by (bit_vector);
}

} // verus!
