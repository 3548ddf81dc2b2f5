use vstd::prelude::*;

verus! {

/// Sprite attribute flags (byte 3 of an OAM entry).
/// Bit7   OBJ-to-BG Priority (0=OBJ Above BG, 1=OBJ Behind BG color 1-3)
/// Bit6   Y flip          (0=Normal, 1=Vertically mirrored)
/// Bit5   X flip          (0=Normal, 1=Horizontally mirrored)
/// Bit4   Palette number  **Non CGB Mode Only** (0=OBP0, 1=OBP1)
/// Bit3   Tile VRAM-Bank  **CGB Mode Only**     (0=Bank 0, 1=Bank 1)
/// Bit2-0 Palette number  **CGB Mode Only**     (OBP0-7)
pub const SPRITE_PRIORITY: u8 = 1 << 7;
pub const SPRITE_FLIP_Y: u8 = 1 << 6;
pub const SPRITE_FLIP_X: u8 = 1 << 5;
pub const SPRITE_PALETTE: u8 = 1 << 4;

/// The abstract content of an OAM entry.
pub struct SpriteView {
    pub y: u8,
    pub x: u8,
    pub tile: u8,
    pub flags: u8,
}

/// An object attribute memory entry: position, tile number and attribute flags.
#[derive(Clone, Copy, Debug, PartialEq, Eq, Structural)]
pub struct Sprite {
    y: u8,
    x: u8,
    tile: u8,
    flags: u8,
}

impl Default for Sprite {
    fn default() -> (r: Sprite)
        ensures
            r@ == (SpriteView { y: 0, x: 0, tile: 0, flags: 0 }),
    {
        Sprite { y: 0, x: 0, tile: 0, flags: 0 }
    }
}

impl View for Sprite {
    type V = SpriteView;

    closed spec fn view(&self) -> SpriteView {
        SpriteView { y: self.y, x: self.x, tile: self.tile, flags: self.flags }
    }
}

impl From<Sprite> for [u8; 4] {
    fn from(value: Sprite) -> (r: [u8; 4])
        ensures
            r@ == seq![value@.x, value@.y, value@.tile, value@.flags],
    {
        [value.x(), value.y(), value.tile(), value.flags()]
    }
}

impl vstd::std_specs::convert::FromSpecImpl<Sprite> for [u8; 4] {
    open spec fn obeys_from_spec() -> bool {
        true
    }

    open spec fn from_spec(v: Sprite) -> [u8; 4] {
        [v@.x, v@.y, v@.tile, v@.flags]
    }
}

impl From<[u8; 4]> for Sprite {
    fn from(value: [u8; 4]) -> (r: Sprite)
        ensures
            r@ == (SpriteView { y: value@[0], x: value@[1], tile: value@[2], flags: value@[3] }),
    {
        Self { y: value[0], x: value[1], tile: value[2], flags: value[3] }
    }
}

impl vstd::std_specs::convert::FromSpecImpl<[u8; 4]> for Sprite {
    open spec fn obeys_from_spec() -> bool {
        true
    }

    closed spec fn from_spec(v: [u8; 4]) -> Sprite {
        Sprite { y: v@[0], x: v@[1], tile: v@[2], flags: v@[3] }
    }
}

impl Sprite {
    pub fn x(&self) -> (r: u8)
        ensures
            r == self@.x,
    {
        self.x
    }

    pub fn set_x(&mut self, x: u8)
        ensures
            final(self)@ == (SpriteView { x, ..old(self)@ }),
    {
        self.x = x;
    }

    pub fn y(&self) -> (r: u8)
        ensures
            r == self@.y,
    {
        self.y
    }

    pub fn set_y(&mut self, y: u8)
        ensures
            final(self)@ == (SpriteView { y, ..old(self)@ }),
    {
        self.y = y;
    }

    pub fn tile(&self) -> (r: u8)
        ensures
            r == self@.tile,
    {
        self.tile
    }

    pub fn set_tile(&mut self, tile: u8)
        ensures
            final(self)@ == (SpriteView { tile, ..old(self)@ }),
    {
        self.tile = tile;
    }

    pub fn flags(&self) -> (r: u8)
        ensures
            r == self@.flags,
    {
        self.flags
    }

    pub fn set_flags(&mut self, flags: u8)
        ensures
            final(self)@ == (SpriteView { flags, ..old(self)@ }),
    {
        self.flags = flags;
    }

    pub fn horizontal_flip(&self) -> (r: bool)
        ensures
            r == (self@.flags & SPRITE_FLIP_X != 0),
    {
        self.flags & SPRITE_FLIP_X != 0
    }

    pub fn vertical_flip(&self) -> (r: bool)
        ensures
            r == (self@.flags & SPRITE_FLIP_Y != 0),
    {
        self.flags & SPRITE_FLIP_Y != 0
    }

    pub fn priority(&self) -> (r: bool)
        ensures
            r == (self@.flags & SPRITE_PRIORITY != 0),
    {
        self.flags & SPRITE_PRIORITY != 0
    }

    pub fn palette_index(&self) -> (r: u8)
        ensures
            r == if self@.flags & SPRITE_PALETTE != 0 { 1u8 } else { 0u8 },
    {
        if self.flags & SPRITE_PALETTE != 0 {
            1
        } else {
            0
        }
    }
}

} // verus!
