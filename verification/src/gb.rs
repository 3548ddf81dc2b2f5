use vstd::prelude::*;

use crate::cpu::flags::{flags_of, Flags};
use crate::cpu::interrupt::{lemma_source_bits, Interrupt, INT_HL_PIN, INT_LCDC, INT_TIMER, INT_VBLANK};
use crate::cpu::interrupt_service::IntView;
use crate::cpu::registers::RegistersView;
use crate::cpu::semantics::{cycle_spec, CpuView};
use crate::cpu::{Cpu, Fault};
use crate::joypad::{p1_register, JoypadView, Keys};
use crate::mmu::{mmu_write, MmuView};
use crate::ppu::{initial_ppu, lemma_step_keeps_timing, step_spec, timing_ok, PpuView};
use crate::spu::spu_initial;
use crate::timer::{timer_step, TimerView};
use crate::MemoryBus;
use crate::TICKS_PER_FRAME;

verus! {

/// The abstract state of the console: the ticks carried into the next frame, the keys
/// pressed and released since the last frame, and the machine.
pub struct GameBoyView {
    pub ticks: u64,
    pub pressed: u8,
    pub released: u8,
    pub cpu: CpuView,
}

impl GameBoyView {
    /// The memory map is well formed, the PPU is part way through a mode and less than a
    /// frame of ticks is carried.
    pub open spec fn wf(self) -> bool {
        &&& self.cpu.mmu.wf()
        &&& timing_ok(self.cpu.mmu.ppu)
        &&& self.ticks < TICKS_PER_FRAME
    }
}

/// The controller with `source` latched into IF when `cond` holds.
pub open spec fn latch_if(i: IntView, cond: bool, source: u8) -> IntView {
    if cond {
        IntView { iflag: i.iflag | source, ..i }
    } else {
        i
    }
}

/// The machine after the timer and the PPU advance by `t` ticks, with their timer overflow,
/// LCDC status and vertical blank requests latched.
pub open spec fn devices_spec(c: CpuView, t: u64) -> CpuView {
    let timer = timer_step(c.mmu.timer, t);
    let ppu = step_spec(c.mmu.ppu, t);
    let i1 = latch_if(c.ints, timer.overflow_interrupt_requested, INT_TIMER);
    let i2 = latch_if(i1, ppu.lcdc_status_interrupt_requested, INT_LCDC);
    let i3 = latch_if(i2, ppu.vertical_blank_interrupt_requested, INT_VBLANK);
    CpuView { ints: i3, mmu: MmuView { timer, ppu, ..c.mmu }, ..c }
}

/// One step of the machine: a CPU cycle, then the devices advance by the ticks it took.
/// The machine after it and the ticks, or `None` when the cycle faults.
#[verifier::opaque]
pub open spec fn machine_step(c: CpuView) -> Option<(CpuView, u64)> {
    match cycle_spec(c) {
        None => None,
        Some((c1, t)) => Some((devices_spec(c1, t), t)),
    }
}

/// Steps the machine from `c`, with `ticks` counted so far, until a frame of ticks is
/// counted: the machine then and the ticks counted past the frame, or `None` on a fault.
/// (Every cycle takes ticks; a step that took none would end the frame with `None`.)
pub open spec fn run_frame_spec(c: CpuView, ticks: int) -> Option<(CpuView, int)>
    decreases (if ticks < TICKS_PER_FRAME {
        TICKS_PER_FRAME - ticks
    } else {
        0
    }),
{
    if ticks >= TICKS_PER_FRAME {
        Some((c, ticks - TICKS_PER_FRAME))
    } else {
        match machine_step(c) {
            None => None,
            Some((c1, t)) => if t > 0 {
                run_frame_spec(c1, ticks + t)
            } else {
                None
            },
        }
    }
}

/// The machine at the start of a frame: the keys released since the last frame are let go,
/// then the keys pressed are held down and request the joypad interrupt.
pub open spec fn apply_keys(g: GameBoyView) -> CpuView {
    let c = g.cpu;
    let j = c.mmu.joypad;
    let j1 = if g.released != 0 {
        let keys = j.keys & !g.released;
        JoypadView { keys, p1: p1_register(j.p1, keys) }
    } else {
        j
    };
    if g.pressed != 0 {
        let keys = j1.keys | g.pressed;
        CpuView {
            ints: IntView { iflag: c.ints.iflag | INT_HL_PIN, ..c.ints },
            mmu: MmuView { joypad: JoypadView { keys, p1: p1_register(j1.p1, keys) }, ..c.mmu },
            ..c
        }
    } else {
        CpuView { mmu: MmuView { joypad: j1, ..c.mmu }, ..c }
    }
}

/// The console after a frame: the key input applied and the machine run for a frame of
/// ticks, or `None` when a cycle faults.
pub open spec fn frame_spec(g: GameBoyView) -> Option<GameBoyView> {
    match run_frame_spec(apply_keys(g), g.ticks as int) {
        None => None,
        Some((c, t)) => Some(GameBoyView { ticks: t as u64, pressed: 0, released: 0, cpu: c }),
    }
}

/// The register file that the boot ROM leaves behind.
pub open spec fn boot_registers() -> RegistersView {
    RegistersView {
        a: 0x01,
        f: flags_of(0xB0),
        b: 0x00,
        c: 0x13,
        d: 0x00,
        e: 0xD8,
        h: 0x01,
        l: 0x4D,
        sp: 0xFFFE,
        pc: 0x0100,
    }
}

/// The console: the machine and the key input gathered between frames.
pub struct GameBoy {
    ticks: u64,
    joypad_pressed_keys: Keys,
    joypad_released_keys: Keys,
    /// The CPU with the memory map and the devices behind it.
    pub cpu: Cpu,
}

impl View for GameBoy {
    type V = GameBoyView;

    closed spec fn view(&self) -> GameBoyView {
        GameBoyView {
            ticks: self.ticks,
            pressed: self.joypad_pressed_keys@,
            released: self.joypad_released_keys@,
            cpu: self.cpu@,
        }
    }
}

impl GameBoy {
    /// A console in the state that the boot ROM leaves: the registers set, the timer
    /// stopped, the LCD on with the boot palettes, and no interrupt source enabled.
    pub fn new() -> (g: GameBoy)
        ensures
            g@.wf(),
            g@.ticks == 0,
            g@.pressed == 0,
            g@.released == 0,
            g@.cpu.regs == boot_registers(),
            g@.cpu.next_pc == 0,
            !g@.cpu.halted,
            g@.cpu.ints == (IntView {
                enabled: false,
                enable_requested: false,
                disable_requested: false,
                ie: 0,
                iflag: 0,
            }),
            g@.cpu.mmu.cartridge_rom == Seq::new(0x8000, |i: int| 0u8),
            g@.cpu.mmu.cartridge_ram == Seq::new(0x2000, |i: int| 0u8),
            g@.cpu.mmu.ram == Seq::new(0x2000 + 127, |i: int| 0u8),
            g@.cpu.mmu.timer == (TimerView {
                overflow_interrupt_requested: false,
                control: 0,
                ticks_acc: 0,
                ticks_reset: false,
                timer_acc: 0,
                timer_modulo: 0,
                timer_in_bit: false,
                timer_in_mask: 1024,
                timer_enable: false,
            }),
            g@.cpu.mmu.ppu == (PpuView {
                lcdc: 0x91,
                background_palette: 0xFC,
                object_palette_0: 0xFF,
                object_palette_1: 0xFF,
                ..initial_ppu()
            }),
            g@.cpu.mmu.joypad == (JoypadView { p1: 0x1F, keys: 0 }),
            spu_initial(g@.cpu.mmu.spu),
    {
        let mut cpu = Cpu::default();

        // bios-skip
        cpu.regs.set_flags(Flags::with(true, false, true, true));
        cpu.regs.set_a(0x01);
        cpu.regs.set_f(0xb0);
        cpu.regs.set_bc(0x0013);
        cpu.regs.set_de(0x00d8);
        cpu.regs.set_hl(0x014d);
        cpu.regs.set_sp(0xfffe);
        cpu.regs.set_pc(0x0100);

        let ghost m0 = cpu@.mmu;
        cpu.mmu.write(0xff05, 0x00);
        cpu.mmu.write(0xff06, 0x00);
        cpu.mmu.write(0xff07, 0x00);
        let ghost m1 = cpu@.mmu;
        cpu.mmu.write(0xff40, 0x91);
        cpu.mmu.write(0xff42, 0x00);
        cpu.mmu.write(0xff43, 0x00);
        cpu.mmu.write(0xff45, 0x00);
        cpu.mmu.write(0xff47, 0xfc);
        cpu.mmu.write(0xff48, 0xff);
        cpu.mmu.write(0xff49, 0xff);
        cpu.mmu.write(0xff4a, 0x00);
        cpu.mmu.write(0xff4b, 0x00);
        cpu.write(0xffff, 0x00);

        proof {
            reveal(mmu_write);
            assert(0u8 & 0x1F == 0) by (bit_vector);
        }
        GameBoy {
            ticks: 0,
            joypad_pressed_keys: Keys::empty(),
            joypad_released_keys: Keys::empty(),
            cpu,
        }
    }

    /// Loads a cartridge image into the ROM area; the rest of the ROM keeps its content.
    pub fn load_rom(&mut self, rom: &Vec<u8>)
        requires
            old(self)@.wf(),
            rom.len() <= 0x8000,
        ensures
            final(self)@.wf(),
            final(self)@ == (GameBoyView {
                cpu: CpuView {
                    mmu: MmuView {
                        cartridge_rom: rom@ + old(self)@.cpu.mmu.cartridge_rom.subrange(
                            rom.len() as int,
                            0x8000,
                        ),
                        ..old(self)@.cpu.mmu
                    },
                    ..old(self)@.cpu
                },
                ..old(self)@
            }),
    {
        let ghost old_rom = self.cpu.mmu.cartridge_rom@;
        let mut i: usize = 0;
        while i < rom.len()
            invariant
                i <= rom.len() <= 0x8000,
                self.cpu.mmu.cartridge_rom@.len() == 0x8000,
                old_rom.len() == 0x8000,
                forall|k: int| 0 <= k < i ==> self.cpu.mmu.cartridge_rom@[k] == rom@[k],
                forall|k: int| i <= k < 0x8000 ==> self.cpu.mmu.cartridge_rom@[k] == old_rom[k],
                self@ == (GameBoyView {
                    cpu: CpuView {
                        mmu: MmuView { cartridge_rom: self.cpu.mmu.cartridge_rom@, ..old(self)@.cpu.mmu },
                        ..old(self)@.cpu
                    },
                    ..old(self)@
                }),
                old(self)@.wf(),
            decreases rom.len() - i,
        {
            self.cpu.mmu.cartridge_rom.set(i, rom[i]);
            i += 1;
        }
        assert(self.cpu.mmu.cartridge_rom@ =~= rom@ + old_rom.subrange(rom.len() as int, 0x8000));
    }

    /// A key went down: it is pressed at the next frame (and no longer released).
    pub fn key_down(&mut self, keys: Keys)
        ensures
            final(self)@ == (GameBoyView {
                pressed: old(self)@.pressed | keys@,
                released: old(self)@.released & !keys@,
                ..old(self)@
            }),
    {
        self.joypad_pressed_keys.insert(keys);
        self.joypad_released_keys.remove(keys);
    }

    /// A key went up: it is released at the next frame (and no longer pressed).
    pub fn key_up(&mut self, keys: Keys)
        ensures
            final(self)@ == (GameBoyView {
                released: old(self)@.released | keys@,
                pressed: old(self)@.pressed & !keys@,
                ..old(self)@
            }),
    {
        self.joypad_released_keys.insert(keys);
        self.joypad_pressed_keys.remove(keys);
    }

    /// Applies the key input gathered since the last frame.
    fn apply_key_input(&mut self)
        requires
            old(self)@.wf(),
        ensures
            final(self)@ == (GameBoyView {
                pressed: 0,
                released: 0,
                cpu: apply_keys(old(self)@),
                ..old(self)@
            }),
            final(self)@.wf(),
    {
        if !self.joypad_released_keys.is_empty() {
            self.cpu.mmu.joypad.release(self.joypad_released_keys);
            self.joypad_released_keys = Keys::empty();
        }
        if !self.joypad_pressed_keys.is_empty() {
            self.cpu.mmu.joypad.press(self.joypad_pressed_keys);
            proof {
                lemma_source_bits();
            }
            self.cpu.request_interrupt(Interrupt::from(INT_HL_PIN));
            self.joypad_pressed_keys = Keys::empty();
        }
    }

    /// Advances the timer and the PPU by `ticks` and latches their interrupt requests.
    fn advance_devices(&mut self, ticks: u64)
        requires
            old(self)@.cpu.mmu.wf(),
            timing_ok(old(self)@.cpu.mmu.ppu),
            ticks < 80,
        ensures
            final(self)@ == (GameBoyView { cpu: devices_spec(old(self)@.cpu, ticks), ..old(self)@ }),
            final(self)@.cpu.mmu.wf(),
            timing_ok(final(self)@.cpu.mmu.ppu),
    {
        self.cpu.mmu.timer.step(ticks);
        proof {
            lemma_step_keeps_timing(self.cpu@.mmu.ppu, ticks);
            lemma_source_bits();
        }
        self.cpu.mmu.ppu.step(ticks);

        if self.cpu.mmu.timer.overflow_interrupt_requested() {
            self.cpu.request_interrupt(Interrupt::from(INT_TIMER));
        }
        if self.cpu.mmu.ppu.lcdc_status_interrupt_requested() {
            self.cpu.request_interrupt(Interrupt::from(INT_LCDC));
        }
        if self.cpu.mmu.ppu.vertical_blank_interrupt_requested() {
            self.cpu.request_interrupt(Interrupt::from(INT_VBLANK));
        }
    }

    /// One step of the machine: a CPU cycle, then the devices advanced by its ticks.
    /// Returns the ticks.
    fn step(&mut self) -> (r: Result<u64, Fault>)
        requires
            old(self)@.cpu.mmu.wf(),
            timing_ok(old(self)@.cpu.mmu.ppu),
        ensures
            match machine_step(old(self)@.cpu) {
                Some((c, t)) => r == Ok::<u64, Fault>(t) && final(self)@ == (GameBoyView {
                    cpu: c,
                    ..old(self)@
                }),
                None => r is Err,
            },
            r matches Ok(t) ==> 4 <= t <= 48,
            final(self)@.cpu.mmu.wf(),
            timing_ok(final(self)@.cpu.mmu.ppu),
    {
        proof {
            reveal(machine_step);
        }
        let ticks = self.cpu.cycle()?;
        self.advance_devices(ticks);
        Ok(ticks)
    }

    /// Runs the console for one frame: applies the key input, then steps the machine until
    /// a frame of ticks is counted; the ticks past the frame carry into the next one.
    /// Fails with the fault of a cycle that could not complete.
    pub fn run_next_frame(&mut self) -> (r: Result<(), Fault>)
        requires
            old(self)@.wf(),
        ensures
            match frame_spec(old(self)@) {
                Some(g) => r is Ok && final(self)@ == g,
                None => r is Err,
            },
            r is Ok ==> final(self)@.wf(),
    {
        self.apply_key_input();
        let ghost start = self@;
        while self.ticks < TICKS_PER_FRAME
            invariant
                self@.cpu.mmu.wf(),
                timing_ok(self@.cpu.mmu.ppu),
                self.ticks < TICKS_PER_FRAME + 48,
                self@.pressed == 0,
                self@.released == 0,
                run_frame_spec(self@.cpu, self.ticks as int) == run_frame_spec(
                    start.cpu,
                    start.ticks as int,
                ),
                run_frame_spec(start.cpu, start.ticks as int) == run_frame_spec(
                    apply_keys(old(self)@),
                    old(self)@.ticks as int,
                ),
            decreases TICKS_PER_FRAME + 48 - self.ticks,
        {
            let ticks = self.step()?;
            self.ticks = self.ticks + ticks;
        }
        self.ticks = self.ticks - TICKS_PER_FRAME;
        Ok(())
    }
}

} // verus!
