use vstd::prelude::*;

pub mod alu;
pub mod bios;
pub mod cpu;
pub mod gb;
pub mod joypad;
pub mod mmu;
pub mod ppu;
pub mod spu;
pub mod timer;

verus! {

/// Ticks of the system clock per second.
pub const TICKS_PER_SECOND: u64 = 4_194_304;

/// Ticks of the system clock per video frame (sixty frames per second).
pub const TICKS_PER_FRAME: u64 = TICKS_PER_SECOND / 60;

/// A device on the memory bus: it answers reads and takes writes at its addresses.
pub trait MemoryBus {
    /// The device answers a read at `addr`.
    spec fn reads_at(&self, addr: u16) -> bool;

    /// The device takes a write of `data` at `addr`.
    spec fn writes_at(&self, addr: u16, data: u8) -> bool;

    fn read(&self, addr: u16) -> u8
        requires
            self.reads_at(addr),
    ;

    fn write(&mut self, addr: u16, data: u8)
        requires
            old(self).writes_at(addr, data),
    ;
}

} // verus!
