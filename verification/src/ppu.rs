pub mod lcd_control;
pub mod lcd_control_status;
pub mod palette;
pub mod sprite;

use vstd::prelude::*;

use crate::MemoryBus;
use lcd_control::{
    LcdControl, BACKGROUND_AND_TILE_DATA_DISPLAY_SELECT, BACKGROUND_AND_TILE_MAP_DISPLAY_SELECT,
};
use lcd_control_status::{stat_of, LcdControlMode, LcdControlStatus, StatView};
use palette::{palette_shade, Palette};
use sprite::{Sprite, SpriteView};

verus! {

pub const SCREEN_PIXEL_WIDTH: usize = 160;
pub const SCREEN_PIXEL_HEIGHT: usize = 144;
pub const SCREEN_PIXEL_SIZE: usize = SCREEN_PIXEL_HEIGHT * SCREEN_PIXEL_WIDTH;

pub const PIXEL_BIT_DEPTH: usize = 2;
pub const ARGB_BYTES_PER_PIXEL: usize = 4;
pub const SCREEN_BUFFER_SIZE: usize = SCREEN_PIXEL_SIZE * ARGB_BYTES_PER_PIXEL;
pub const SCREEN_BUFFER_WIDTH: usize = SCREEN_PIXEL_WIDTH * ARGB_BYTES_PER_PIXEL;

pub const TILE_SIZE: usize = 16;
pub const TILE_WIDTH: usize = 8;
pub const TILE_HEIGHT: usize = 8;
pub const TILE_PER_ROW: usize = 32;
pub const TILE_PER_COL: usize = 32;

/// The four shades of the screen as (alpha, red, green, blue), from light to dark.
pub const SHADE: [[u8; 4]; 4] = [
    [0xFF, 0x9B, 0xBC, 0x0F],  // Light
    [0xFF, 0x8B, 0xAC, 0x0F],  // Light Gray
    [0xFF, 0x30, 0x62, 0x30],  // Dark Gray
    [0xFF, 0x0F, 0x38, 0x0F],  // Dark
];

/// Byte `k` (alpha, red, green, blue) of shade `shade`.
pub open spec fn shade_byte(shade: int, k: int) -> u8 {
    SHADE@[shade]@[k]
}

/// The abstract state of the pixel processing unit.
pub struct PpuView {
    pub lcdc: u8,
    pub stat: StatView,
    pub scanline: u8,
    pub scanline_compare: u8,
    pub scroll_y: u8,
    pub scroll_x: u8,
    pub window_y: u8,
    pub window_x: u8,
    pub background_palette: u8,
    pub object_palette_0: u8,
    pub object_palette_1: u8,
    pub ticks: u64,
    pub lcdc_status_interrupt_requested: bool,
    pub vertical_blank_interrupt_requested: bool,
    pub back_buffer_index: usize,
    pub front_buffer_index: usize,
    pub frame_buffer_0: Seq<u8>,
    pub frame_buffer_1: Seq<u8>,
    pub object_attribute_ram: Seq<SpriteView>,
    pub video_ram: Seq<u8>,
}

/// The shade of the background at column `x` of the current scanline.
pub open spec fn background_shade(p: PpuView, x: int) -> int {
    let tile_map_base: int = if p.lcdc & BACKGROUND_AND_TILE_MAP_DISPLAY_SELECT
        == BACKGROUND_AND_TILE_MAP_DISPLAY_SELECT {
        0x1C00
    } else {
        0x1800
    };
    let tile_data_base: int = if p.lcdc & BACKGROUND_AND_TILE_DATA_DISPLAY_SELECT
        == BACKGROUND_AND_TILE_DATA_DISPLAY_SELECT {
        0x0000
    } else {
        0x1000
    };
    let tile_y = (p.scanline + p.scroll_y) % 256;
    let tile_x = (x + p.scroll_x) % 256;
    let tile_map = p.video_ram[tile_map_base + tile_x / 8 + (tile_y / 8) * 32] as int;
    let tile_data_addr = (if tile_map >= 128 && tile_data_base != 0 {
        tile_data_base - (256 - tile_map) * 16
    } else {
        tile_data_base + tile_map * 16
    }) + (tile_y % 8) * 2;
    let bit_index = 7 - tile_x % 8;
    let lsb = p.video_ram[tile_data_addr];
    let msb = p.video_ram[tile_data_addr + 1];
    let palette_index = ((lsb >> bit_index as u8) % 2) * 2 + (msb >> bit_index as u8) % 2;
    ((p.background_palette as u32 >> (palette_index * 2) as u32) % 4) as int
}

/// The value of column `k` (0 leftmost) in a byte of a tile row: 128 for the leftmost
/// pixel down to 1 for the rightmost.
pub open spec fn column_weight(k: int) -> int {
    if k == 0 {
        128
    } else if k == 1 {
        64
    } else if k == 2 {
        32
    } else if k == 3 {
        16
    } else if k == 4 {
        8
    } else if k == 5 {
        4
    } else if k == 6 {
        2
    } else {
        1
    }
}

/// The bit of column `k` of a tile row byte.
pub open spec fn column_bit(v: u8, k: int) -> int {
    (v as int / column_weight(k)) % 2
}

/// The video RAM offset of the first of the two bytes of the tile row under column `x` of
/// the current scanline: the tile is taken from the background map (bit 3 of LCDC selects
/// $9C00 over $9800), its 16 bytes from the tile data area (bit 4 selects $8000 with unsigned
/// tile numbers over $9000 with signed ones), and the row from the scrolled line.
pub open spec fn tile_row_address(p: PpuView, x: int) -> int {
    let map_base: int = if p.lcdc & 0x08 != 0 {
        0x1C00
    } else {
        0x1800
    };
    let line = (p.scanline + p.scroll_y) % 256;
    let column = (x + p.scroll_x) % 256;
    let tile = p.video_ram[map_base + 32 * (line / 8) + column / 8] as int;
    let tile_start: int = if p.lcdc & 0x10 != 0 {
        16 * tile
    } else if tile < 128 {
        0x1000 + 16 * tile
    } else {
        0x1000 + 16 * (tile - 256)
    };
    tile_start + 2 * (line % 8)
}

/// Bit 7 - k of `v`, taken by a shift, is the bit of column `k`.
proof fn lemma_column_bit(v: u8, k: int)
    requires
        0 <= k < 8,
    ensures
        (v >> (7 - k) as u8) % 2 == column_bit(v, k),
{
    assert((v >> 7u8) % 2 == (v / 128) % 2 && (v >> 6u8) % 2 == (v / 64) % 2 && (v >> 5u8) % 2 == (v
        / 32) % 2 && (v >> 4u8) % 2 == (v / 16) % 2 && (v >> 3u8) % 2 == (v / 8) % 2 && (v >> 2u8)
        % 2 == (v / 4) % 2 && (v >> 1u8) % 2 == (v / 2) % 2 && (v >> 0u8) % 2 == v % 2)
        by (bit_vector);
    if k == 0 {
        assert((7 - k) as u8 == 7u8);
    } else if k == 1 {
        assert((7 - k) as u8 == 6u8);
    } else if k == 2 {
        assert((7 - k) as u8 == 5u8);
    } else if k == 3 {
        assert((7 - k) as u8 == 4u8);
    } else if k == 4 {
        assert((7 - k) as u8 == 3u8);
    } else if k == 5 {
        assert((7 - k) as u8 == 2u8);
    } else if k == 6 {
        assert((7 - k) as u8 == 1u8);
    } else {
        assert((7 - k) as u8 == 0u8);
    }
}

/// Pixel `k` of a tile row (column `k` counted from the left, `k` being the scrolled column
/// modulo 8) takes bit 7 - k of the row's two bytes: the first byte gives the high bit of
/// the palette index and the second the low bit, and the background palette maps the index
/// to the shade.
pub proof fn lemma_tile_pixel_order(p: PpuView, x: int)
    ensures
        ({
            let k = (x + p.scroll_x) % 256 % 8;
            let a = tile_row_address(p, x);
            let index = 2 * column_bit(p.video_ram[a], k) + column_bit(p.video_ram[a + 1], k);
            background_shade(p, x) == palette_shade(p.background_palette, index as u8)
        }),
{
    let lcdc = p.lcdc;
    assert((lcdc & BACKGROUND_AND_TILE_MAP_DISPLAY_SELECT == BACKGROUND_AND_TILE_MAP_DISPLAY_SELECT)
        == (lcdc & 0x08 != 0) && (lcdc & BACKGROUND_AND_TILE_DATA_DISPLAY_SELECT
        == BACKGROUND_AND_TILE_DATA_DISPLAY_SELECT) == (lcdc & 0x10 != 0)) by (bit_vector);
    let k = (x + p.scroll_x) % 256 % 8;
    let a = tile_row_address(p, x);
    let lsb = p.video_ram[a];
    let msb = p.video_ram[a + 1];
    let bit_index = 7 - k;
    assert(0 <= k < 8);
    lemma_column_bit(lsb, k);
    lemma_column_bit(msb, k);
    let index = 2 * column_bit(lsb, k) + column_bit(msb, k);
    assert(0 <= index < 4);
    let bgp = p.background_palette;
    let i = index as u32;
    assert(((bgp as u32) >> (i * 2)) % 4 == ((bgp >> (i * 2) as u8) % 4) as u32) by (bit_vector)
        requires
            i < 4,
    ;
}

/// The frame buffer `buf` with row `y` drawn from the background of `p`.
pub open spec fn render_row(buf: Seq<u8>, p: PpuView, y: int) -> Seq<u8> {
    let start = y * 640;
    Seq::new(
        buf.len(),
        |i: int|
            if start <= i < start + 640 {
                shade_byte(background_shade(p, (i - start) / 4), (i - start) % 4)
            } else {
                buf[i]
            },
    )
}

/// The PPU with the current scanline drawn into the back buffer.
pub open spec fn render_spec(p: PpuView) -> PpuView {
    if p.back_buffer_index == 0 {
        PpuView { frame_buffer_0: render_row(p.frame_buffer_0, p, p.scanline as int), ..p }
    } else {
        PpuView { frame_buffer_1: render_row(p.frame_buffer_1, p, p.scanline as int), ..p }
    }
}

/// The PPU after entering `mode`: a mode whose STAT interrupt is enabled requests the LCDC
/// status interrupt, and entering the vertical blank requests the vertical blank interrupt.
pub open spec fn set_mode_spec(p: PpuView, mode: LcdControlMode) -> PpuView {
    PpuView {
        stat: StatView { mode, ..p.stat },
        lcdc_status_interrupt_requested: p.lcdc_status_interrupt_requested || (mode
            == LcdControlMode::ScanningOAM && p.stat.oam_interrupt) || (mode
            == LcdControlMode::VerticalBlank && p.stat.vblank_interrupt) || (mode
            == LcdControlMode::HorizontalBlank && p.stat.hblank_interrupt),
        vertical_blank_interrupt_requested: mode == LcdControlMode::VerticalBlank,
        ..p
    }
}

/// The PPU on scanline `line`: the coincidence flag compares it with LYC, and when the line
/// equals LYC an enabled coincidence interrupt requests the LCDC status interrupt.
pub open spec fn set_scanline_spec(p: PpuView, line: u8) -> PpuView {
    PpuView {
        scanline: line,
        stat: StatView { coincidence: line == p.scanline_compare, ..p.stat },
        lcdc_status_interrupt_requested: p.lcdc_status_interrupt_requested || (
        p.stat.coincidence_interrupt && line == p.scanline_compare),
        ..p
    }
}

/// The PPU after `ticks` clock ticks: it stays in each mode for its duration (OAM search 80,
/// transfer 172, horizontal blank 204, a line of vertical blank 456) and then moves on;
/// a transfer ends by drawing the scanline, a vertical blank ends by swapping the buffers.
pub open spec fn step_spec(p: PpuView, ticks: u64) -> PpuView {
    let t = (p.ticks + ticks) as u64;
    let p0 = PpuView {
        ticks: t,
        lcdc_status_interrupt_requested: false,
        vertical_blank_interrupt_requested: false,
        ..p
    };
    match p.stat.mode {
        LcdControlMode::HorizontalBlank => {
            if t >= 204 {
                let p1 = set_scanline_spec(
                    PpuView { ticks: (t - 204) as u64, ..p0 },
                    (p.scanline + 1) as u8,
                );
                if p1.scanline >= 143 {
                    set_mode_spec(p1, LcdControlMode::VerticalBlank)
                } else {
                    set_mode_spec(p1, LcdControlMode::ScanningOAM)
                }
            } else {
                p0
            }
        },
        LcdControlMode::VerticalBlank => {
            if t >= 456 {
                let p1 = set_scanline_spec(
                    PpuView { ticks: (t - 456) as u64, ..p0 },
                    (p.scanline + 1) as u8,
                );
                if p1.scanline > 153 {
                    let p2 = set_scanline_spec(
                        set_mode_spec(p1, LcdControlMode::ScanningOAM),
                        0,
                    );
                    PpuView {
                        back_buffer_index: p2.front_buffer_index,
                        front_buffer_index: p2.back_buffer_index,
                        ..p2
                    }
                } else {
                    p1
                }
            } else {
                p0
            }
        },
        LcdControlMode::ScanningOAM => {
            if t >= 80 {
                set_mode_spec(
                    PpuView { ticks: (t - 80) as u64, ..p0 },
                    LcdControlMode::Transfering,
                )
            } else {
                p0
            }
        },
        LcdControlMode::Transfering => {
            if t >= 172 {
                render_spec(
                    set_mode_spec(
                        PpuView { ticks: (t - 172) as u64, ..p0 },
                        LcdControlMode::HorizontalBlank,
                    ),
                )
            } else {
                p0
            }
        },
    }
}

/// A step of `ticks` does not overflow the tick counter, the scanline, or the frame buffer.
pub open spec fn step_ok(p: PpuView, ticks: u64) -> bool {
    let t = p.ticks + ticks;
    &&& t <= u64::MAX
    &&& (p.stat.mode == LcdControlMode::HorizontalBlank && t >= 204) ==> p.scanline < 255
    &&& (p.stat.mode == LcdControlMode::VerticalBlank && t >= 456) ==> p.scanline < 255
    &&& (p.stat.mode == LcdControlMode::Transfering && t >= 172) ==> p.scanline < 144
}

/// How long the PPU stays in `mode`, in clock ticks.
pub open spec fn mode_duration(mode: LcdControlMode) -> u64 {
    match mode {
        LcdControlMode::HorizontalBlank => 204,
        LcdControlMode::VerticalBlank => 456,
        LcdControlMode::ScanningOAM => 80,
        LcdControlMode::Transfering => 172,
    }
}

/// The PPU is part way through its current mode, on a visible line (a vertical blank line
/// while in vertical blank).
pub open spec fn timing_ok(p: PpuView) -> bool {
    &&& p.ticks < mode_duration(p.stat.mode)
    &&& p.scanline <= if p.stat.mode == LcdControlMode::VerticalBlank {
        153u8
    } else {
        143u8
    }
}

/// From a PPU part way through its mode, a step shorter than any mode is allowed and leaves
/// the PPU part way through its (possibly next) mode.
pub proof fn lemma_step_keeps_timing(p: PpuView, ticks: u64)
    requires
        timing_ok(p),
        ticks < 80,
    ensures
        step_ok(p, ticks),
        timing_ok(step_spec(p, ticks)),
{
}

/// The PPU after a write of `data` at `addr`. A write to STAT keeps its read-only bits.
pub open spec fn ppu_write(p: PpuView, addr: u16, data: u8) -> PpuView {
    if 0x8000 <= addr <= 0x9FFF {
        PpuView { video_ram: p.video_ram.update(addr - 0x8000, data), ..p }
    } else if 0xFE00 <= addr <= 0xFE9F {
        let i = (addr - 0xFE00) / 4;
        let f = (addr - 0xFE00) % 4;
        let s = p.object_attribute_ram[i];
        let s1 = if f == 0 {
            SpriteView { y: data, ..s }
        } else if f == 1 {
            SpriteView { x: data, ..s }
        } else if f == 2 {
            SpriteView { tile: data, ..s }
        } else {
            SpriteView { flags: data, ..s }
        };
        PpuView { object_attribute_ram: p.object_attribute_ram.update(i, s1), ..p }
    } else if addr == 0xFF40 {
        PpuView { lcdc: data, ..p }
    } else if addr == 0xFF41 {
        PpuView {
            stat: StatView {
                coincidence: p.scanline == p.scanline_compare,
                mode: p.stat.mode,
                ..stat_of(data)
            },
            ..p
        }
    } else if addr == 0xFF42 {
        PpuView { scroll_y: data, ..p }
    } else if addr == 0xFF43 {
        PpuView { scroll_x: data, ..p }
    } else if addr == 0xFF45 {
        PpuView { scanline_compare: data, ..p }
    } else if addr == 0xFF47 {
        PpuView { background_palette: data, ..p }
    } else if addr == 0xFF48 {
        PpuView { object_palette_0: data, ..p }
    } else if addr == 0xFF49 {
        PpuView { object_palette_1: data, ..p }
    } else if addr == 0xFF4A {
        PpuView { window_y: data, ..p }
    } else if addr == 0xFF4B {
        PpuView { window_x: data, ..p }
    } else {
        p
    }
}

/// The byte that a read of the PPU at `addr` gives (outside the sprite table).
pub open spec fn ppu_read(p: PpuView, addr: u16) -> u8 {
    if 0x8000 <= addr <= 0x9FFF {
        p.video_ram[addr - 0x8000]
    } else if addr == 0xFF40 {
        p.lcdc
    } else if addr == 0xFF41 {
        lcd_control_status::stat_bits(p.stat)
    } else if addr == 0xFF42 {
        p.scroll_y
    } else if addr == 0xFF43 {
        p.scroll_x
    } else if addr == 0xFF44 {
        p.scanline
    } else if addr == 0xFF45 {
        p.scanline_compare
    } else if addr == 0xFF47 {
        p.background_palette
    } else if addr == 0xFF48 {
        p.object_palette_0
    } else if addr == 0xFF49 {
        p.object_palette_1
    } else if addr == 0xFF4A {
        p.window_y
    } else if addr == 0xFF4B {
        p.window_x
    } else {
        0
    }
}

/// Byte `field` (y, x, tile, flags) of a sprite table entry.
pub open spec fn sprite_byte(s: SpriteView, field: int) -> u8 {
    if field == 0 {
        s.y
    } else if field == 1 {
        s.x
    } else if field == 2 {
        s.tile
    } else {
        s.flags
    }
}

/// The pixel processing unit: LCD registers, video RAM, sprite table and two frame buffers.
#[derive(Debug)]
pub struct Ppu {
    lcdc: LcdControl,
    stat: LcdControlStatus,
    scanline: u8,
    scanline_compare: u8,
    scroll_y: u8,
    scroll_x: u8,
    window_y: u8,
    window_x: u8,
    background_palette: Palette,
    object_palette_0: Palette,
    object_palette_1: Palette,
    ticks: u64,
    lcdc_status_interrupt_requested: bool,
    vertical_blank_interrupt_requested: bool,
    back_buffer_index: usize,
    front_buffer_index: usize,
    frame_buffer_0: Vec<u8>,
    frame_buffer_1: Vec<u8>,
    object_attribute_ram: Vec<Sprite>,
    video_ram: Vec<u8>,
}

impl View for Ppu {
    type V = PpuView;

    closed spec fn view(&self) -> PpuView {
        PpuView {
            lcdc: self.lcdc@,
            stat: self.stat@,
            scanline: self.scanline,
            scanline_compare: self.scanline_compare,
            scroll_y: self.scroll_y,
            scroll_x: self.scroll_x,
            window_y: self.window_y,
            window_x: self.window_x,
            background_palette: self.background_palette.palette,
            object_palette_0: self.object_palette_0.palette,
            object_palette_1: self.object_palette_1.palette,
            ticks: self.ticks,
            lcdc_status_interrupt_requested: self.lcdc_status_interrupt_requested,
            vertical_blank_interrupt_requested: self.vertical_blank_interrupt_requested,
            back_buffer_index: self.back_buffer_index,
            front_buffer_index: self.front_buffer_index,
            frame_buffer_0: self.frame_buffer_0@,
            frame_buffer_1: self.frame_buffer_1@,
            object_attribute_ram: self.object_attribute_ram@.map_values(|s: Sprite| s@),
            video_ram: self.video_ram@,
        }
    }
}

impl PpuView {
    /// The sizes of the memories and the two distinct buffer indices.
    pub open spec fn wf(self) -> bool {
        &&& self.frame_buffer_0.len() == SCREEN_BUFFER_SIZE
        &&& self.frame_buffer_1.len() == SCREEN_BUFFER_SIZE
        &&& self.object_attribute_ram.len() == 40
        &&& self.video_ram.len() == 0x2000
        &&& ((self.back_buffer_index == 0 && self.front_buffer_index == 1) || (
        self.back_buffer_index == 1 && self.front_buffer_index == 0))
    }
}

/// The frame buffer filled with the lightest shade.
pub open spec fn blank_frame() -> Seq<u8> {
    Seq::new(SCREEN_BUFFER_SIZE as nat, |i: int| shade_byte(0, i % 4))
}

fn blank_frame_buffer() -> (r: Vec<u8>)
    ensures
        r@ == blank_frame(),
{
    let mut frame: Vec<u8> = Vec::new();
    let mut index: usize = 0;
    while index < SCREEN_BUFFER_SIZE
        invariant
            index <= SCREEN_BUFFER_SIZE,
            frame@.len() == index,
            forall|i: int| 0 <= i < index ==> frame@[i] == shade_byte(0, i % 4),
        decreases SCREEN_BUFFER_SIZE - index,
    {
        frame.push(SHADE[0][index % 4]);
        index += 1;
    }
    assert(frame@ == blank_frame());
    frame
}

/// The PPU at power on: LCD on, horizontal blank of line 0, all other registers, the
/// sprite table and video RAM zero, both frame buffers blank.
pub open spec fn initial_ppu() -> PpuView {
    PpuView {
        lcdc: 0x91,
        stat: StatView {
            coincidence_interrupt: false,
            oam_interrupt: false,
            vblank_interrupt: false,
            hblank_interrupt: false,
            coincidence: false,
            mode: LcdControlMode::HorizontalBlank,
        },
        scanline: 0,
        scanline_compare: 0,
        scroll_y: 0,
        scroll_x: 0,
        window_y: 0,
        window_x: 0,
        background_palette: 0,
        object_palette_0: 0,
        object_palette_1: 0,
        ticks: 0,
        lcdc_status_interrupt_requested: false,
        vertical_blank_interrupt_requested: false,
        back_buffer_index: 0,
        front_buffer_index: 1,
        frame_buffer_0: blank_frame(),
        frame_buffer_1: blank_frame(),
        object_attribute_ram: Seq::new(40, |i: int| SpriteView { y: 0, x: 0, tile: 0, flags: 0 }),
        video_ram: Seq::new(0x2000, |i: int| 0u8),
    }
}

impl Default for Ppu {
    fn default() -> (r: Ppu)
        ensures
            r@.wf(),
            r@ == initial_ppu(),
    {
        let blank = blank_frame_buffer();
        let mut object_attribute_ram: Vec<Sprite> = Vec::new();
        let mut i: usize = 0;
        while i < 40
            invariant
                i <= 40,
                object_attribute_ram@.len() == i,
                forall|j: int|
                    0 <= j < i ==> #[trigger] object_attribute_ram@[j]@ == (SpriteView {
                        y: 0,
                        x: 0,
                        tile: 0,
                        flags: 0,
                    }),
            decreases 40 - i,
        {
            object_attribute_ram.push(Sprite::default());
            i += 1;
        }
        let r = Self {
            lcdc: LcdControl::default(),
            stat: LcdControlStatus::default(),
            scanline: 0,
            scanline_compare: 0,
            scroll_y: 0,
            scroll_x: 0,
            window_x: 0,
            window_y: 0,
            background_palette: Palette::default(),
            object_palette_0: Palette::default(),
            object_palette_1: Palette::default(),
            ticks: 0,
            lcdc_status_interrupt_requested: false,
            vertical_blank_interrupt_requested: false,
            back_buffer_index: 0,
            front_buffer_index: 1,
            frame_buffer_0: blank.clone(),
            frame_buffer_1: blank,
            object_attribute_ram,
            video_ram: vec![0u8; 0x2000],
        };
        assert(r@.object_attribute_ram =~= initial_ppu().object_attribute_ram);
        assert(r@.video_ram =~= initial_ppu().video_ram);
        r
    }
}


/// The shade of the background at column `x` of the current scanline.
#[verifier::rlimit(40)]
fn background_shade_index(
    video_ram: &Vec<u8>,
    lcdc: LcdControl,
    scanline: u8,
    scroll_x: u8,
    scroll_y: u8,
    background_palette: Palette,
    x: u8,
    Ghost(p): Ghost<PpuView>,
) -> (r: usize)
    requires
        video_ram@.len() == 0x2000,
        p.video_ram == video_ram@,
        p.lcdc == lcdc@,
        p.scanline == scanline,
        p.scroll_x == scroll_x,
        p.scroll_y == scroll_y,
        p.background_palette == background_palette.palette,
    ensures
        r == background_shade(p, x as int),
        r < 4,
{
    let tile_map_base_addr: usize = if lcdc.contains(BACKGROUND_AND_TILE_MAP_DISPLAY_SELECT) {
        0x1C00
    } else {
        0x1800
    };

    let tile_data_base_addr: usize = if lcdc.contains(BACKGROUND_AND_TILE_DATA_DISPLAY_SELECT) {
        0x0000
    } else {
        0x1000
    };

    let tile_y = scanline.wrapping_add(scroll_y) as usize;
    let tile_x = x.wrapping_add(scroll_x) as usize;
    assert(tile_y == (p.scanline + p.scroll_y) % 256);
    assert(tile_x == (x + p.scroll_x) % 256);
    let tile_map_offset = (tile_x / 8) + (tile_y / 8) * 32;
    assert(tile_map_offset < 1024);

    let tile_map_addr = tile_map_base_addr + tile_map_offset;
    let tile_map = video_ram[tile_map_addr] as usize;

    let tile_data_addr: usize = if tile_map >= 128 && tile_data_base_addr != 0 {
        let tile_map = 255 - tile_map + 1;
        tile_data_base_addr - tile_map * 16
    } else {
        tile_data_base_addr + tile_map * 16
    } + (tile_y % 8) * 2;
    assert(tile_data_addr + 1 < 0x2000);

    let tile_data_lsb = video_ram[tile_data_addr];
    let tile_data_msb = video_ram[tile_data_addr + 1];

    let bit_index = (7 - (tile_x % 8)) as u8;

    let palette_index = ((tile_data_lsb >> bit_index) % 2) * 2 + (tile_data_msb >> bit_index) % 2;

    let pallete_shift = palette_index as u32 * 2;

    let palette: u32 = background_palette.into();

    ((palette >> pallete_shift) % 4) as usize
}

/// Draws row `y` of the background into `buf`.
fn render_scanline_into(
    buf: &mut Vec<u8>,
    video_ram: &Vec<u8>,
    lcdc: LcdControl,
    scanline: u8,
    scroll_x: u8,
    scroll_y: u8,
    background_palette: Palette,
    Ghost(p): Ghost<PpuView>,
)
    requires
        old(buf)@.len() == SCREEN_BUFFER_SIZE,
        video_ram@.len() == 0x2000,
        scanline < 144,
        p.video_ram == video_ram@,
        p.lcdc == lcdc@,
        p.scanline == scanline,
        p.scroll_x == scroll_x,
        p.scroll_y == scroll_y,
        p.background_palette == background_palette.palette,
    ensures
        final(buf)@ == render_row(old(buf)@, p, scanline as int),
{
    let tile_map_base_addr: usize = if lcdc.contains(BACKGROUND_AND_TILE_MAP_DISPLAY_SELECT) {
        0x1C00
    } else {
        0x1800
    };

    let tile_data_base_addr: usize = if lcdc.contains(BACKGROUND_AND_TILE_DATA_DISPLAY_SELECT) {
        0x0000
    } else {
        0x1000
    };

    let y = scanline as usize;
    let tile_y = scanline.wrapping_add(scroll_y) as usize;
    let ghost start = y * 640;
    let ghost old_buf = buf@;

    let mut x: usize = 0;
    while x < SCREEN_PIXEL_WIDTH
        invariant
            x <= SCREEN_PIXEL_WIDTH,
            y < 144,
            start == y * 640,
            start + 640 <= SCREEN_BUFFER_SIZE,
            buf@.len() == SCREEN_BUFFER_SIZE,
            old_buf.len() == SCREEN_BUFFER_SIZE,
            video_ram@.len() == 0x2000,
            p.video_ram == video_ram@,
            p.lcdc == lcdc@,
            p.scanline == y,
            p.scanline == scanline,
            p.scroll_x == scroll_x,
            p.scroll_y == scroll_y,
            p.background_palette == background_palette.palette,
            forall|i: int|
                0 <= i < SCREEN_BUFFER_SIZE ==> #[trigger] buf@[i] == if start <= i < start + 4
                    * x {
                    shade_byte(background_shade(p, (i - start) / 4), (i - start) % 4)
                } else {
                    old_buf[i]
                },
        decreases SCREEN_PIXEL_WIDTH - x,
    {
        let shade_index = background_shade_index(
            video_ram,
            lcdc,
            scanline,
            scroll_x,
            scroll_y,
            background_palette,
            x as u8,
            Ghost(p),
        );
        assert((x + y * SCREEN_PIXEL_WIDTH) * ARGB_BYTES_PER_PIXEL == start + 4 * x)
            by (nonlinear_arith)
            requires
                start == y * 640,
        ;
        let pos: usize = (x + y * SCREEN_PIXEL_WIDTH) * ARGB_BYTES_PER_PIXEL;

        let shade = SHADE[shade_index];
        let ghost before = buf@;
        buf.set(pos + 0, shade[0]);
        buf.set(pos + 1, shade[1]);
        buf.set(pos + 2, shade[2]);
        buf.set(pos + 3, shade[3]);
        assert forall|i: int| 0 <= i < SCREEN_BUFFER_SIZE implies #[trigger] buf@[i] == if start
            <= i < start + 4 * (x + 1) {
            shade_byte(background_shade(p, (i - start) / 4), (i - start) % 4)
        } else {
            old_buf[i]
        } by {
            if pos <= i < pos + 4 {
                assert((i - start) / 4 == x);
                assert((i - start) % 4 == i - pos);
            } else {
                assert(buf@[i] == before[i]);
            }
        }

        x += 1;
    }
    assert(buf@ == render_row(old_buf, p, y as int));
}

impl MemoryBus for Ppu {
    /// Reads in the sprite table go through `read_object_attribute_ram`.
    open spec fn reads_at(&self, addr: u16) -> bool {
        self@.wf() && !(0xFE00 <= addr <= 0xFE9F)
    }

    /// STAT has no bit 7.
    open spec fn writes_at(&self, addr: u16, data: u8) -> bool {
        self@.wf() && !(addr == 0xFF41 && data >= 0x80)
    }

    fn read(&self, addr: u16) -> (r: u8)
        ensures
            r == ppu_read(self@, addr),
    {
        proof {
            lemma_view_wf_parts(self);
        }
        if 0x8000 <= addr && addr <= 0x9FFF {
            self.video_ram[addr as usize - 0x8000]
        } else if addr == 0xFF40 {
            self.lcdc()
        } else if addr == 0xFF41 {
            self.stat()
        } else if addr == 0xFF42 {
            self.scroll_y()
        } else if addr == 0xFF43 {
            self.scroll_x()
        } else if addr == 0xFF44 {
            self.scanline()
        } else if addr == 0xFF45 {
            self.scanline_compare()
        } else if addr == 0xFF47 {
            self.background_palette()
        } else if addr == 0xFF48 {
            self.object_palette_0()
        } else if addr == 0xFF49 {
            self.object_palette_1()
        } else if addr == 0xFF4A {
            self.window_y()
        } else if addr == 0xFF4B {
            self.window_x()
        } else {
            0
        }
    }

    fn write(&mut self, addr: u16, data: u8)
        ensures
            final(self)@ == ppu_write(old(self)@, addr, data),
            final(self)@.wf(),
    {
        proof {
            lemma_view_wf_parts(self);
        }
        if 0x8000 <= addr && addr <= 0x9FFF {
            self.video_ram.set(addr as usize - 0x8000, data);
        } else if 0xFE00 <= addr && addr <= 0xFE9F {
            self.write_object_attribute_ram(addr - 0xFE00, data);
        } else if addr == 0xFF40 {
            self.set_lcdc(data);
        } else if addr == 0xFF41 {
            self.set_stat(data);
        } else if addr == 0xFF42 {
            self.set_scroll_y(data);
        } else if addr == 0xFF43 {
            self.set_scroll_x(data);
        } else if addr == 0xFF45 {
            self.set_scanline_compare(data);
        } else if addr == 0xFF47 {
            self.set_background_palette(data);
        } else if addr == 0xFF48 {
            self.set_object_palette_0(data);
        } else if addr == 0xFF49 {
            self.set_object_palette_1(data);
        } else if addr == 0xFF4A {
            self.set_window_y(data);
        } else if addr == 0xFF4B {
            self.set_window_x(data);
        }
    }
}

/// The view of a PPU is well formed when its vectors have their sizes.
proof fn lemma_view_wf_parts(p: &Ppu)
    ensures
        p@.wf() ==> {
            &&& p.video_ram@.len() == 0x2000
            &&& p.object_attribute_ram@.len() == 40
            &&& p.frame_buffer_0@.len() == SCREEN_BUFFER_SIZE
            &&& p.frame_buffer_1@.len() == SCREEN_BUFFER_SIZE
        },
{
}

impl Ppu {
    pub fn lcdc(&self) -> (r: u8)
        ensures
            r == self@.lcdc,
    {
        self.lcdc.into()
    }

    pub fn set_lcdc(&mut self, lcdc: u8)
        ensures
            final(self)@ == (PpuView { lcdc, ..old(self)@ }),
    {
        self.lcdc = LcdControl::from(lcdc);
    }

    pub fn stat(&self) -> (r: u8)
        ensures
            r == lcd_control_status::stat_bits(self@.stat),
    {
        self.stat.into()
    }

    /// Writes STAT: the interrupt enables come from `stat`; the coincidence flag compares
    /// the scanline with LYC and the mode is kept.
    pub fn set_stat(&mut self, stat: u8)
        requires
            stat < 0x80,
        ensures
            final(self)@ == ppu_write(old(self)@, 0xFF41, stat),
    {
        self.stat = self.stat.with_writable_bits(LcdControlStatus::from_bits(stat));
        self.stat.set_scanline_coincidence(self.scanline == self.scanline_compare);
    }

    pub fn mode(&self) -> (r: LcdControlMode)
        ensures
            r == self@.stat.mode,
    {
        self.stat.mode()
    }

    /// Enters `mode`, requesting the interrupts that it raises.
    pub fn set_mode(&mut self, mode: LcdControlMode)
        ensures
            final(self)@ == set_mode_spec(old(self)@, mode),
    {
        self.stat.set_mode(mode);

        if mode == LcdControlMode::ScanningOAM && self.stat.mode_oam_interrupt_enabled() {
            self.lcdc_status_interrupt_requested = true;
        }
        if mode == LcdControlMode::VerticalBlank && self.stat.mode_v_blank_interrupt_enabled() {
            self.lcdc_status_interrupt_requested = true;
        }
        if mode == LcdControlMode::HorizontalBlank && self.stat.mode_h_blank_interrupt_enabled() {
            self.lcdc_status_interrupt_requested = true;
        }

        self.vertical_blank_interrupt_requested = mode == LcdControlMode::VerticalBlank;
    }

    pub fn scanline(&self) -> (r: u8)
        ensures
            r == self@.scanline,
    {
        self.scanline
    }

    /// Moves to the next scanline.
    pub fn increment_scanline(&mut self)
        requires
            old(self)@.scanline < 255,
        ensures
            final(self)@ == set_scanline_spec(old(self)@, (old(self)@.scanline + 1) as u8),
    {
        self.scanline += 1;
        self.stat.set_scanline_coincidence(self.scanline == self.scanline_compare);

        if self.stat.line_y_coincidence_interrupt_enabled() && self.scanline == self.scanline_compare {
            self.lcdc_status_interrupt_requested = true;
        }
    }

    /// Moves back to the first scanline.
    pub fn reset_scanline(&mut self)
        ensures
            final(self)@ == set_scanline_spec(old(self)@, 0),
    {
        self.scanline = 0;
        self.stat.set_scanline_coincidence(self.scanline == self.scanline_compare);

        if self.stat.line_y_coincidence_interrupt_enabled() && self.scanline == self.scanline_compare {
            self.lcdc_status_interrupt_requested = true;
        }
    }

    pub fn scanline_compare(&self) -> (r: u8)
        ensures
            r == self@.scanline_compare,
    {
        self.scanline_compare
    }

    pub fn set_scanline_compare(&mut self, lyc: u8)
        ensures
            final(self)@ == (PpuView { scanline_compare: lyc, ..old(self)@ }),
    {
        self.scanline_compare = lyc;
    }

    pub fn background_palette(&self) -> (r: u8)
        ensures
            r == self@.background_palette,
    {
        self.background_palette.into()
    }

    pub fn set_background_palette(&mut self, bgp: u8)
        ensures
            final(self)@ == (PpuView { background_palette: bgp, ..old(self)@ }),
    {
        self.background_palette = bgp.into();
    }

    pub fn object_palette_0(&self) -> (r: u8)
        ensures
            r == self@.object_palette_0,
    {
        self.object_palette_0.into()
    }

    pub fn set_object_palette_0(&mut self, obp0: u8)
        ensures
            final(self)@ == (PpuView { object_palette_0: obp0, ..old(self)@ }),
    {
        self.object_palette_0 = obp0.into();
    }

    pub fn object_palette_1(&self) -> (r: u8)
        ensures
            r == self@.object_palette_1,
    {
        self.object_palette_1.into()
    }

    pub fn set_object_palette_1(&mut self, obp1: u8)
        ensures
            final(self)@ == (PpuView { object_palette_1: obp1, ..old(self)@ }),
    {
        self.object_palette_1 = obp1.into();
    }

    pub fn scroll_x(&self) -> (r: u8)
        ensures
            r == self@.scroll_x,
    {
        self.scroll_x
    }

    pub fn set_scroll_x(&mut self, scroll_x: u8)
        ensures
            final(self)@ == (PpuView { scroll_x, ..old(self)@ }),
    {
        self.scroll_x = scroll_x;
    }

    pub fn scroll_y(&self) -> (r: u8)
        ensures
            r == self@.scroll_y,
    {
        self.scroll_y
    }

    pub fn set_scroll_y(&mut self, scroll_y: u8)
        ensures
            final(self)@ == (PpuView { scroll_y, ..old(self)@ }),
    {
        self.scroll_y = scroll_y;
    }

    pub fn window_x(&self) -> (r: u8)
        ensures
            r == self@.window_x,
    {
        self.window_x
    }

    pub fn set_window_x(&mut self, window_x: u8)
        ensures
            final(self)@ == (PpuView { window_x, ..old(self)@ }),
    {
        self.window_x = window_x;
    }

    pub fn window_y(&self) -> (r: u8)
        ensures
            r == self@.window_y,
    {
        self.window_y
    }

    pub fn set_window_y(&mut self, window_y: u8)
        ensures
            final(self)@ == (PpuView { window_y, ..old(self)@ }),
    {
        self.window_y = window_y;
    }

    pub fn lcdc_status_interrupt_requested(&self) -> (r: bool)
        ensures
            r == self@.lcdc_status_interrupt_requested,
    {
        self.lcdc_status_interrupt_requested
    }

    pub fn vertical_blank_interrupt_requested(&self) -> (r: bool)
        ensures
            r == self@.vertical_blank_interrupt_requested,
    {
        self.vertical_blank_interrupt_requested
    }

    /// The byte of video RAM at offset `addr`.
    pub fn read_video_ram(&self, addr: u16) -> (r: u8)
        requires
            self@.wf(),
            addr < 0x2000,
        ensures
            r == self@.video_ram[addr as int],
    {
        self.video_ram[addr as usize]
    }

    /// Writes the byte of video RAM at offset `addr`.
    pub fn write_video_ram(&mut self, addr: u16, data: u8)
        requires
            old(self)@.wf(),
            addr < 0x2000,
        ensures
            final(self)@ == (PpuView {
                video_ram: old(self)@.video_ram.update(addr as int, data),
                ..old(self)@
            }),
    {
        self.video_ram.set(addr as usize, data);
    }

    /// The frame buffer on display (the one not being drawn).
    pub fn frame_buffer(&self) -> (r: &Vec<u8>)
        ensures
            r@ == if self@.front_buffer_index == 0 {
                self@.frame_buffer_0
            } else {
                self@.frame_buffer_1
            },
    {
        if self.front_buffer_index == 0 {
            &self.frame_buffer_0
        } else {
            &self.frame_buffer_1
        }
    }

    /// Byte `addr % 4` (y, x, tile, flags) of sprite `addr / 4` of the sprite table.
    pub fn read_object_attribute_ram(&self, addr: u16) -> (r: u8)
        requires
            self@.wf(),
            addr < 160,
        ensures
            r == sprite_byte(self@.object_attribute_ram[(addr / 4) as int], (addr % 4) as int),
    {
        let sprite_index = addr as usize / 4;
        let sprite_field = addr % 4;
        if sprite_field == 0 {
            self.object_attribute_ram[sprite_index].y()
        } else if sprite_field == 1 {
            self.object_attribute_ram[sprite_index].x()
        } else if sprite_field == 2 {
            self.object_attribute_ram[sprite_index].tile()
        } else {
            self.object_attribute_ram[sprite_index].flags()
        }
    }

    /// Writes byte `addr % 4` (y, x, tile, flags) of sprite `addr / 4` of the sprite table.
    pub fn write_object_attribute_ram(&mut self, addr: u16, data: u8)
        requires
            old(self)@.wf(),
            addr < 160,
        ensures
            final(self)@ == ppu_write(old(self)@, (addr + 0xFE00) as u16, data),
    {
        let sprite_index = addr as usize / 4;
        let sprite_field = addr % 4;
        let mut sprite = self.object_attribute_ram[sprite_index];
        if sprite_field == 0 {
            sprite.set_y(data);
        } else if sprite_field == 1 {
            sprite.set_x(data);
        } else if sprite_field == 2 {
            sprite.set_tile(data);
        } else {
            sprite.set_flags(data);
        }
        self.object_attribute_ram.set(sprite_index, sprite);
        assert(self@.object_attribute_ram =~= old(self)@.object_attribute_ram.update(
            sprite_index as int,
            sprite@,
        ));
    }

    /// Loads the whole sprite table from 160 bytes (DMA transfer).
    pub fn populate_object_attribute_ram(&mut self, data: &[u8; 160])
        requires
            old(self)@.wf(),
        ensures
            final(self)@ == (PpuView {
                object_attribute_ram: Seq::new(
                    40,
                    |i: int|
                        SpriteView {
                            y: data@[4 * i],
                            x: data@[4 * i + 1],
                            tile: data@[4 * i + 2],
                            flags: data@[4 * i + 3],
                        },
                ),
                ..old(self)@
            }),
    {
        let mut oam: Vec<Sprite> = Vec::new();
        let mut sprite_index: usize = 0;
        while sprite_index < 40
            invariant
                sprite_index <= 40,
                oam@.len() == sprite_index,
                forall|i: int|
                    0 <= i < sprite_index ==> #[trigger] oam@[i]@ == (SpriteView {
                        y: data@[4 * i],
                        x: data@[4 * i + 1],
                        tile: data@[4 * i + 2],
                        flags: data@[4 * i + 3],
                    }),
            decreases 40 - sprite_index,
        {
            let beg = sprite_index * 4;
            oam.push(Sprite::from([data[beg + 0], data[beg + 1], data[beg + 2], data[beg + 3]]));
            sprite_index += 1;
        }
        self.object_attribute_ram = oam;
        assert(self@.object_attribute_ram =~= Seq::new(
            40,
            |i: int|
                SpriteView {
                    y: data@[4 * i],
                    x: data@[4 * i + 1],
                    tile: data@[4 * i + 2],
                    flags: data@[4 * i + 3],
                },
        ));
    }

    /// Draws the current scanline of the background into the back buffer.
    pub fn render_scanline(&mut self)
        requires
            old(self)@.wf(),
            old(self)@.scanline < 144,
        ensures
            final(self)@ == render_spec(old(self)@),
    {
        let ghost p = self@;
        if self.back_buffer_index == 0 {
            render_scanline_into(
                &mut self.frame_buffer_0,
                &self.video_ram,
                self.lcdc,
                self.scanline,
                self.scroll_x,
                self.scroll_y,
                self.background_palette,
                Ghost(p),
            );
        } else {
            render_scanline_into(
                &mut self.frame_buffer_1,
                &self.video_ram,
                self.lcdc,
                self.scanline,
                self.scroll_x,
                self.scroll_y,
                self.background_palette,
                Ghost(p),
            );
        }
    }

    /// Advances the PPU by `ticks` clock ticks.
    pub fn step(&mut self, ticks: u64)
        requires
            old(self)@.wf(),
            step_ok(old(self)@, ticks),
        ensures
            final(self)@ == step_spec(old(self)@, ticks),
            final(self)@.wf(),
    {
        self.ticks += ticks;
        self.lcdc_status_interrupt_requested = false;
        self.vertical_blank_interrupt_requested = false;

        match self.mode() {
            LcdControlMode::HorizontalBlank => {
                if self.ticks >= 204 {
                    self.ticks -= 204;
                    self.increment_scanline();

                    if self.scanline >= 143 {
                        self.set_mode(LcdControlMode::VerticalBlank);
                    } else {
                        self.set_mode(LcdControlMode::ScanningOAM);
                    }
                }
            },
            LcdControlMode::VerticalBlank => {
                if self.ticks >= 456 {
                    self.ticks -= 456;
                    self.increment_scanline();

                    if self.scanline > 153 {
                        self.set_mode(LcdControlMode::ScanningOAM);
                        self.reset_scanline();

                        // Swap frame buffers
                        let back = self.back_buffer_index;
                        self.back_buffer_index = self.front_buffer_index;
                        self.front_buffer_index = back;
                    }
                }
            },
            LcdControlMode::ScanningOAM => {
                if self.ticks >= 80 {
                    self.ticks -= 80;
                    self.set_mode(LcdControlMode::Transfering);
                }
            },
            LcdControlMode::Transfering => {
                if self.ticks >= 172 {
                    self.ticks -= 172;
                    self.set_mode(LcdControlMode::HorizontalBlank);
                    self.render_scanline();
                }
            },
        }
    }
}

} // verus!
