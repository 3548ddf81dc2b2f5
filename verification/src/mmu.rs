use vstd::prelude::*;

use crate::joypad::{p1_register, Joypad, JoypadView};
use crate::ppu::sprite::SpriteView;
use crate::ppu::{ppu_read, ppu_write, Ppu, PpuView};
use crate::spu::{spu_write, Spu};
use crate::timer::{timer_read, timer_write, Timer, TimerView};
use crate::MemoryBus;

verus! {

/// Address of the interrupt request register (IF), answered by the CPU.
pub const IF_ADDR: u16 = 0xFF0F;
/// Address of the interrupt enable register (IE), answered by the CPU.
pub const IE_ADDR: u16 = 0xFFFF;
/// Address of the sprite table DMA register.
pub const DMA_ADDR: u16 = 0xFF46;

/// The abstract state of the memory map and the devices behind it.
pub struct MmuView {
    pub cartridge_rom: Seq<u8>,
    pub cartridge_ram: Seq<u8>,
    pub ram: Seq<u8>,
    pub ppu: PpuView,
    pub spu: Spu,
    pub timer: TimerView,
    pub joypad: JoypadView,
}

impl MmuView {
    pub open spec fn wf(self) -> bool {
        &&& self.cartridge_rom.len() == 0x8000
        &&& self.cartridge_ram.len() == 0x2000
        &&& self.ram.len() == 0x2000 + 127
        &&& self.ppu.wf()
        &&& self.spu.wf()
    }
}

/// The byte that a read at `addr` gives (IF and IE are the CPU's).
#[verifier::opaque]
pub open spec fn mmu_read(m: MmuView, addr: u16) -> u8 {
    if addr < 0x8000 {
        m.cartridge_rom[addr as int]
    } else if addr < 0xA000 {
        ppu_read(m.ppu, addr)
    } else if addr < 0xC000 {
        m.cartridge_ram[addr - 0xA000]
    } else if addr < 0xE000 {
        m.ram[addr - 0xC000]
    } else if addr < 0xFE00 {
        m.ram[addr - 0xE000]
    } else if addr < 0xFF00 {
        0
    } else if addr < 0xFF80 {
        if addr == 0xFF00 {
            m.joypad.p1
        } else if addr == 0xFF01 {
            0xFF
        } else if addr == 0xFF02 {
            0x03
        } else if 0xFF04 <= addr <= 0xFF07 {
            timer_read(m.timer, addr)
        } else if 0xFF40 <= addr <= 0xFF4B {
            ppu_read(m.ppu, addr)
        } else {
            0
        }
    } else if addr < 0xFFFF {
        m.ram[0x2000 + addr - 0xFF80]
    } else {
        0
    }
}

/// The sprite table that a DMA transfer from page `data` loads.
pub open spec fn dma_sprites(m: MmuView, data: u8) -> Seq<SpriteView> {
    let base = data * 256;
    Seq::new(
        40,
        |i: int|
            SpriteView {
                y: mmu_read(m, (base + 4 * i) as u16),
                x: mmu_read(m, (base + 4 * i + 1) as u16),
                tile: mmu_read(m, (base + 4 * i + 2) as u16),
                flags: mmu_read(m, (base + 4 * i + 3) as u16),
            },
    )
}

/// The memory map after a write of `data` at `addr` (IF and IE are the CPU's).
#[verifier::opaque]
pub open spec fn mmu_write(m: MmuView, addr: u16, data: u8) -> MmuView {
    if addr < 0x8000 {
        m
    } else if addr < 0xA000 {
        MmuView { ppu: ppu_write(m.ppu, addr, data), ..m }
    } else if addr < 0xC000 {
        MmuView { cartridge_ram: m.cartridge_ram.update(addr - 0xA000, data), ..m }
    } else if addr < 0xE000 {
        MmuView { ram: m.ram.update(addr - 0xC000, data), ..m }
    } else if addr < 0xFE00 {
        MmuView { ram: m.ram.update(addr - 0xE000, data), ..m }
    } else if addr < 0xFEA0 {
        MmuView { ppu: ppu_write(m.ppu, addr, data), ..m }
    } else if addr < 0xFF00 {
        m
    } else if addr < 0xFF80 {
        if addr == 0xFF00 {
            MmuView { joypad: JoypadView { p1: p1_register(data, m.joypad.keys), ..m.joypad }, ..m }
        } else if 0xFF04 <= addr <= 0xFF07 {
            MmuView { timer: timer_write(m.timer, addr, data), ..m }
        } else if 0xFF10 <= addr <= 0xFF26 {
            MmuView { spu: spu_write(m.spu, addr, data), ..m }
        } else if addr == DMA_ADDR {
            if data <= 0xF1 {
                MmuView { ppu: PpuView { object_attribute_ram: dma_sprites(m, data), ..m.ppu }, ..m }
            } else {
                m
            }
        } else if 0xFF40 <= addr <= 0xFF4B {
            MmuView { ppu: ppu_write(m.ppu, addr, data), ..m }
        } else {
            m
        }
    } else if addr < 0xFFFF {
        MmuView { ram: m.ram.update(0x2000 + addr - 0xFF80, data), ..m }
    } else {
        m
    }
}

/// No write on the memory map moves the PPU along its frame: its mode, line and tick counter
/// stay.
pub proof fn lemma_write_keeps_ppu_timing(m: MmuView, addr: u16, data: u8)
    ensures
        mmu_write(m, addr, data).ppu.ticks == m.ppu.ticks,
        mmu_write(m, addr, data).ppu.stat.mode == m.ppu.stat.mode,
        mmu_write(m, addr, data).ppu.scanline == m.ppu.scanline,
{
    reveal(mmu_write);
}

/// The addresses backed by plain memory: cartridge RAM, internal RAM and its echo, and the
/// zero page.
pub open spec fn ram_address(addr: u16) -> bool {
    (0xA000 <= addr < 0xFE00) || (0xFF80 <= addr < 0xFFFF)
}

/// The memory cell behind a RAM address; an address of the echo area shares its cell with
/// the internal RAM address $2000 below it.
pub open spec fn ram_cell(addr: u16) -> int {
    if addr < 0xC000 {
        0x4000 + (addr - 0xA000)
    } else if addr < 0xE000 {
        addr - 0xC000
    } else if addr < 0xFE00 {
        addr - 0xE000
    } else {
        0x2000 + (addr - 0xFF80)
    }
}

/// A write to RAM is read back at every address of the same cell (the echo included) and
/// changes no other read; the memory map stays well formed.
pub proof fn lemma_ram_read_after_write(m: MmuView, addr: u16, data: u8, other: u16)
    requires
        m.wf(),
        ram_address(addr),
    ensures
        mmu_write(m, addr, data).wf(),
        mmu_read(mmu_write(m, addr, data), other) == if ram_address(other) && ram_cell(other)
            == ram_cell(addr) {
            data
        } else {
            mmu_read(m, other)
        },
{
    reveal(mmu_write);
    reveal(mmu_read);
}

/// The memory management unit: the memory map of cartridge ROM and RAM, internal RAM and
/// the devices on the bus.
#[derive(Debug)]
pub struct Mmu {
    /// Cartrige ROM
    /// - $0000..=$7FFFF (ROM)
    pub cartridge_rom: Vec<u8>,
    /// Cartrige RAM
    /// - $A000..=$BFFFF (RAM)
    pub cartridge_ram: Vec<u8>,
    /// Random Access Memory
    /// - $C000..=$DFFF (Internal RAM)
    /// - $E000..=$FDFF (Echo of Internal RAM)
    /// - $FF80..=$FFFE (Zero Page)
    pub ram: Vec<u8>,
    pub ppu: Ppu,
    pub spu: Spu,
    pub timer: Timer,
    pub joypad: Joypad,
}

impl View for Mmu {
    type V = MmuView;

    open spec fn view(&self) -> MmuView {
        MmuView {
            cartridge_rom: self.cartridge_rom@,
            cartridge_ram: self.cartridge_ram@,
            ram: self.ram@,
            ppu: self.ppu@,
            spu: self.spu,
            timer: self.timer@,
            joypad: self.joypad@,
        }
    }
}

impl Default for Mmu {
    fn default() -> (r: Mmu)
        ensures
            r@.wf(),
            r@.cartridge_rom == Seq::new(0x8000, |i: int| 0u8),
            r@.cartridge_ram == Seq::new(0x2000, |i: int| 0u8),
            r@.ram == Seq::new(0x2000 + 127, |i: int| 0u8),
            r@.ppu == crate::ppu::initial_ppu(),
            crate::spu::spu_initial(r@.spu),
            r@.timer == (TimerView {
                overflow_interrupt_requested: false,
                control: 0xff,
                ticks_acc: 0,
                ticks_reset: false,
                timer_acc: 0,
                timer_modulo: 0,
                timer_in_bit: false,
                timer_in_mask: 256,
                timer_enable: true,
            }),
            r@.joypad == (JoypadView { p1: 0x1F, keys: 0 }),
    {
        let r = Self {
            cartridge_rom: vec![0u8; 0x8000],
            cartridge_ram: vec![0u8; 0x2000],
            ram: vec![0u8; 0x2000 + 127],
            ppu: Ppu::default(),
            spu: Spu::default(),
            timer: Timer::default(),
            joypad: Joypad::default(),
        };
        assert(r@.cartridge_rom =~= Seq::new(0x8000, |i: int| 0u8));
        assert(r@.cartridge_ram =~= Seq::new(0x2000, |i: int| 0u8));
        assert(r@.ram =~= Seq::new(0x2000 + 127, |i: int| 0u8));
        r
    }
}

impl MemoryBus for Mmu {
    /// IF and IE are answered by the CPU.
    open spec fn reads_at(&self, addr: u16) -> bool {
        self@.wf() && addr != IF_ADDR && addr != IE_ADDR
    }

    /// IF and IE are answered by the CPU; STAT has no bit 7.
    open spec fn writes_at(&self, addr: u16, data: u8) -> bool {
        self@.wf() && addr != IF_ADDR && addr != IE_ADDR && !(addr == 0xFF41 && data >= 0x80)
    }

    fn read(&self, addr: u16) -> (r: u8)
        ensures
            r == mmu_read(self@, addr),
    {
        reveal(mmu_read);
        if addr < 0x8000 {  // 0x0000..=0x7FFF (Cartridge ROM)
            self.cartridge_rom[addr as usize]
        } else if addr < 0xA000 {  // 0x8000..=0x9FFF (Video RAM)
            self.ppu.read(addr)
        } else if addr < 0xC000 {  // 0xA000..=0xBFFF (Cartridge RAM)
            self.cartridge_ram[addr as usize - 0xA000]
        } else if addr < 0xE000 {  // 0xC000..=0xDFFF (Internal RAM)
            self.ram[addr as usize - 0xC000]
        } else if addr < 0xFE00 {  // 0xE000..=0xFDFF (Echo RAM)
            self.ram[(addr - 0xE000) as usize]
        } else if addr < 0xFEA0 {  // 0xFE00..=0xFE9F (OAM)
            0
        } else if addr < 0xFF00 {  // 0xFEA0..=0xFEFF (Unusable)
            0
        } else if addr < 0xFF80 {  // 0xFF00..=0xFF7F (Hardware IO)
            if addr == 0xFF00 {
                // Joypad
                self.joypad.p1()
            } else if addr == 0xFF01 {
                // Serial
                0xFF
            } else if addr == 0xFF02 {
                0x03
            } else if 0xFF04 <= addr && addr <= 0xFF07 {
                // Timer
                self.timer.read(addr)
            } else if 0xFF10 <= addr && addr <= 0xFF26 {
                // SPU
                self.spu.read(addr)
            } else if 0xFF40 <= addr && addr <= 0xFF4B {
                // PPU
                self.ppu.read(addr)
            } else {
                0
            }
        } else if addr < 0xFFFF {  // 0xFF80..=0xFFFE (Zero Page)
            self.ram[0x2000 + (addr - 0xFF80) as usize]
        } else {
            0
        }
    }

    fn write(&mut self, addr: u16, data: u8)
        ensures
            final(self)@ == mmu_write(old(self)@, addr, data),
            final(self)@.wf(),
    {
        reveal(mmu_write);
        if addr < 0x8000 {  // 0x0000..=0x7FFF (Cartridge ROM)
            // read-only, but writting to it configures the rom bank switch
        } else if addr < 0xA000 {  // 0x8000..=0x9FFF (Video RAM)
            self.ppu.write(addr, data)
        } else if addr < 0xC000 {  // 0xA000..=0xBFFF (Cartridge RAM)
            self.cartridge_ram.set(addr as usize - 0xA000, data);
        } else if addr < 0xE000 {  // 0xC000..=0xDFFF (Internal RAM)
            self.ram.set(addr as usize - 0xC000, data);
        } else if addr < 0xFE00 {  // 0xE000..=0xFDFF (Echo RAM)
            self.ram.set(addr as usize - 0xE000, data);
        } else if addr < 0xFEA0 {  // 0xFE00..=0xFE9F (OAM)
            self.ppu.write(addr, data)
        } else if addr < 0xFF00 {  // 0xFEA0..=0xFEFF (Unusable)
        } else if addr < 0xFF80 {  // 0xFF00..=0xFF7F (Hardware IO)
            if addr == 0xFF00 {
                // Joypad
                self.joypad.set_p1(data)
            } else if 0xFF04 <= addr && addr <= 0xFF07 {
                // Timer
                self.timer.write(addr, data)
            } else if 0xFF10 <= addr && addr <= 0xFF26 {
                // SPU
                self.spu.write(addr, data)
            } else if addr == DMA_ADDR {
                // DMA
                if data <= 0xF1 {
                    self.dma_transfer(data);
                }
            } else if 0xFF40 <= addr && addr <= 0xFF4B {
                // PPU
                self.ppu.write(addr, data)
            }
        } else if addr < 0xFFFF {  // 0xFF80..=0xFFFE (Zero Page)
            self.ram.set(0x2000 + (addr - 0xFF80) as usize, data);
        }
    }
}

impl Mmu {
    /// Copies 160 bytes from page `data` into the sprite table.
    fn dma_transfer(&mut self, data: u8)
        requires
            old(self)@.wf(),
            data <= 0xF1,
        ensures
            final(self)@ == mmu_write(old(self)@, DMA_ADDR, data),
            final(self)@.wf(),
    {
        reveal(mmu_write);
        let addr: u16 = data as u16 * 256;
        let mut oam: [u8; 160] = [0; 160];
        let mut i: usize = 0;
        while i < 160
            invariant
                i <= 160,
                addr == data * 256,
                data <= 0xF1,
                self@.wf(),
                forall|j: int| 0 <= j < i ==> #[trigger] oam@[j] == mmu_read(self@, (addr + j) as u16),
            decreases 160 - i,
        {
            oam[i] = self.read(addr + i as u16);
            i += 1;
        }
        let ghost m = self@;
        self.ppu.populate_object_attribute_ram(&oam);
        assert(self@.ppu.object_attribute_ram =~= dma_sprites(m, data)) by {
            assert forall|k: int| 0 <= k < 40 implies #[trigger] self@.ppu.object_attribute_ram[k]
                == dma_sprites(m, data)[k] by {
                assert(oam@[4 * k] == mmu_read(m, (addr + 4 * k) as u16));
                assert(oam@[4 * k + 1] == mmu_read(m, (addr + (4 * k + 1)) as u16));
                assert(oam@[4 * k + 2] == mmu_read(m, (addr + (4 * k + 2)) as u16));
                assert(oam@[4 * k + 3] == mmu_read(m, (addr + (4 * k + 3)) as u16));
            }
        }
    }
}

} // verus!
