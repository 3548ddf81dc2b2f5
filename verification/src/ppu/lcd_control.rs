use vstd::prelude::*;

verus! {

/// LCD Control (R/W)
///
/// Bit 7 - LCD Display Enable             (0=Off, 1=On)
/// Bit 6 - Window Tile Map Display Select (0=9800-9BFF, 1=9C00-9FFF)
/// Bit 5 - Window Display Enable          (0=Off, 1=On)
/// Bit 4 - BG & Window Tile Data Select   (0=8800-97FF, 1=8000-8FFF)
/// Bit 3 - BG Tile Map Display Select     (0=9800-9BFF, 1=9C00-9FFF)
/// Bit 2 - OBJ (Sprite) Size              (0=8x8, 1=8x16)
/// Bit 1 - OBJ (Sprite) Display Enable    (0=Off, 1=On)
/// Bit 0 - BG/Window Display/Priority     (0=Off, 1=On)
pub const LCD_DISPLAY_ON: u8 = 1 << 7;
pub const WINDOW_TILE_MAP_DISPLAY_SELECT: u8 = 1 << 6;
pub const WINDOW_DISPLAY_ON: u8 = 1 << 5;
pub const BACKGROUND_AND_TILE_DATA_DISPLAY_SELECT: u8 = 1 << 4;
pub const BACKGROUND_AND_TILE_MAP_DISPLAY_SELECT: u8 = 1 << 3;
pub const OBJECT_SPRITE_SIZE_SELECT: u8 = 1 << 2;
pub const OBJECT_SPRITE_DISPLAY_ON: u8 = 1 << 1;
pub const BACKGROUND_AND_TILE_DISPLAY_ON: u8 = 1 << 0;

/// The LCD control register (LCDC, $FF40).
#[derive(Clone, Copy, Debug, PartialEq, Eq, Structural)]
pub struct LcdControl {
    bits: u8,
}

impl View for LcdControl {
    type V = u8;

    closed spec fn view(&self) -> u8 {
        self.bits
    }
}

impl Default for LcdControl {
    fn default() -> (r: LcdControl)
        ensures
            r@ == 0x91,
    {
        LcdControl { bits: 0x91 }
    }
}

impl From<LcdControl> for u8 {
    fn from(value: LcdControl) -> (r: u8)
        ensures
            r == value@,
    {
        value.bits
    }
}

impl vstd::std_specs::convert::FromSpecImpl<LcdControl> for u8 {
    open spec fn obeys_from_spec() -> bool {
        true
    }

    open spec fn from_spec(v: LcdControl) -> u8 {
        v@
    }
}

impl From<u8> for LcdControl {
    fn from(value: u8) -> (r: LcdControl)
        ensures
            r@ == value,
    {
        LcdControl { bits: value }
    }
}

impl vstd::std_specs::convert::FromSpecImpl<u8> for LcdControl {
    open spec fn obeys_from_spec() -> bool {
        true
    }

    closed spec fn from_spec(v: u8) -> LcdControl {
        LcdControl { bits: v }
    }
}

impl LcdControl {
    /// Whether every bit of `mask` is set.
    pub fn contains(&self, mask: u8) -> (r: bool)
        ensures
            r == (self@ & mask == mask),
    {
        self.bits & mask == mask
    }

    pub fn is_background_on(&self) -> (r: bool)
        ensures
            r == (self@ & BACKGROUND_AND_TILE_DISPLAY_ON == BACKGROUND_AND_TILE_DISPLAY_ON),
    {
        self.contains(BACKGROUND_AND_TILE_DISPLAY_ON)
    }

    pub fn is_lcd_on(&self) -> (r: bool)
        ensures
            r == (self@ & LCD_DISPLAY_ON == LCD_DISPLAY_ON),
    {
        self.contains(LCD_DISPLAY_ON)
    }

    pub fn is_object_sprite_on(&self) -> (r: bool)
        ensures
            r == (self@ & OBJECT_SPRITE_DISPLAY_ON == OBJECT_SPRITE_DISPLAY_ON),
    {
        self.contains(OBJECT_SPRITE_DISPLAY_ON)
    }

    pub fn is_window_on(&self) -> (r: bool)
        ensures
            r == (self@ & WINDOW_DISPLAY_ON == WINDOW_DISPLAY_ON),
    {
        self.contains(WINDOW_DISPLAY_ON)
    }

    /// (width, height) of the sprites: 8x16 when bit 2 is set, 8x8 otherwise.
    pub fn object_sprite_size(&self) -> (r: (u8, u8))
        ensures
            r == if self@ & OBJECT_SPRITE_SIZE_SELECT == OBJECT_SPRITE_SIZE_SELECT {
                (8u8, 16u8)
            } else {
                (8u8, 8u8)
            },
    {
        if self.contains(OBJECT_SPRITE_SIZE_SELECT) {
            (8, 16)
        } else {
            (8, 8)
        }
    }

    /// (signed, first address, last address) of the background tile data.
    pub fn background_tile_data_addr(&self) -> (r: (bool, u16, u16))
        ensures
            r == if self@ & BACKGROUND_AND_TILE_DATA_DISPLAY_SELECT
                == BACKGROUND_AND_TILE_DATA_DISPLAY_SELECT {
                (false, 0x8000u16, 0x8FFFu16)
            } else {
                (false, 0x8800u16, 0x97FFu16)
            },
    {
        if self.contains(BACKGROUND_AND_TILE_DATA_DISPLAY_SELECT) {
            (false, 0x8000, 0x8FFF)
        } else {
            (false, 0x8800, 0x97FF)
        }
    }

    /// (signed, first address, last address) of the background tile map, selected by
    /// bit 3.
    pub fn background_tile_map_addr(&self) -> (r: (bool, u16, u16))
        ensures
            r == if self@ & BACKGROUND_AND_TILE_MAP_DISPLAY_SELECT
                == BACKGROUND_AND_TILE_MAP_DISPLAY_SELECT {
                (false, 0x9C00u16, 0x9FFFu16)
            } else {
                (false, 0x9800u16, 0x9BFFu16)
            },
    {
        if self.contains(BACKGROUND_AND_TILE_MAP_DISPLAY_SELECT) {
            (false, 0x9C00, 0x9FFF)
        } else {
            (false, 0x9800, 0x9BFF)
        }
    }

    /// (signed, first address, last address) of the window tile map.
    pub fn window_tile_map_addr(&self) -> (r: (bool, u16, u16))
        ensures
            r == if self@ & WINDOW_TILE_MAP_DISPLAY_SELECT == WINDOW_TILE_MAP_DISPLAY_SELECT {
                (false, 0x9C00u16, 0x9FFFu16)
            } else {
                (false, 0x9800u16, 0x9BFFu16)
            },
    {
        if self.contains(WINDOW_TILE_MAP_DISPLAY_SELECT) {
            (false, 0x9C00, 0x9FFF)
        } else {
            (false, 0x9800, 0x9BFF)
        }
    }
}

} // verus!
