pub mod alu;
pub mod flags;
pub mod instructions;
pub mod interrupt;
pub mod interrupt_service;
pub mod registers;
pub mod semantics;

use vstd::prelude::*;

use crate::mmu::{Mmu, IE_ADDR, IF_ADDR};
use crate::MemoryBus;
use flags::Flags;
use instructions::{instruction_size, instruction_ticks, lemma_instruction_bounds, INST_TICKS};
use interrupt::Interrupt;
use interrupt_service::InterruptService;
use registers::{join, Registers};
use semantics::{
    alu_a_spec, alu_spec, bus_read, bus_write, call_spec, cb_result, cb_spec, condition,
    cycle_spec, execute_spec, high_block_spec, indirect_addr, indirect_post, instruction_spec,
    complete_spec, same_ppu_timing, wake_spec, control_transfer_spec, high_misc_spec, is_control_transfer, stack_spec,
    low_accumulator_spec, low_block_spec, relative_jump_spec, store_sp_spec, low_operand_spec, low_pairs_spec, pop_spec, push_spec, read_operand, reg16, reg8, return_spec, stack_reg16,
    with_next_pc, with_reg16, with_reg8, with_stack_reg16, write_operand, CpuView,
};

verus! {

/// Why a cycle could not complete.
#[derive(Clone, Copy, Debug, PartialEq, Eq, Structural)]
pub enum Fault {
    /// A write of a byte with bit 7 set to STAT, which has no such bit.
    ReservedStatBit,
    /// The address of the next instruction passes $FFFF.
    ProgramCounterOverflow,
}

/// `r` and the machine `new` are what a write that gives `o` promises.
pub open spec fn write_outcome(r: Result<(), Fault>, new: CpuView, o: Option<CpuView>) -> bool {
    match o {
        Some(s) => r is Ok && new == s,
        None => r is Err,
    }
}

/// `r` and the machine `new` are what a step that gives `o` promises.
pub open spec fn step_outcome(r: Result<u64, Fault>, new: CpuView, o: Option<(CpuView, u64)>) -> bool {
    match o {
        Some((s, t)) => r == Ok::<u64, Fault>(t) && new == s,
        None => r is Err,
    }
}

/// The Sharp LR35902 CPU with the machine on its bus.
#[derive(Debug)]
pub struct Cpu {
    /// Registers
    pub regs: Registers,
    /// Interrupt Service
    pub int_svc: InterruptService,
    /// Address of the next instruction while one executes
    pub next_pc: u16,
    /// Stopped by HALT until an interrupt is latched
    pub halted: bool,
    /// Memory Management Unit
    pub mmu: Mmu,
}

impl View for Cpu {
    type V = CpuView;

    open spec fn view(&self) -> CpuView {
        CpuView {
            regs: self.regs@,
            ints: self.int_svc@,
            next_pc: self.next_pc,
            halted: self.halted,
            mmu: self.mmu@,
        }
    }
}

impl Default for Cpu {
    fn default() -> (r: Cpu)
        ensures
            r@.mmu.wf(),
            r@.regs == (registers::RegistersView {
                a: 0,
                f: flags::FlagsView { z: false, n: false, h: false, c: false },
                b: 0,
                c: 0,
                d: 0,
                e: 0,
                h: 0,
                l: 0,
                sp: 0,
                pc: 0,
            }),
            r@.next_pc == 0,
            !r@.halted,
            r@.ints == (interrupt_service::IntView {
                enabled: false,
                enable_requested: false,
                disable_requested: false,
                ie: 0,
                iflag: 0,
            }),
            r@.mmu.cartridge_rom == Seq::new(0x8000, |i: int| 0u8),
            r@.mmu.cartridge_ram == Seq::new(0x2000, |i: int| 0u8),
            r@.mmu.ram == Seq::new(0x2000 + 127, |i: int| 0u8),
            r@.mmu.ppu == crate::ppu::initial_ppu(),
            r@.mmu.timer == (crate::timer::TimerView {
                overflow_interrupt_requested: false,
                control: 0xff,
                ticks_acc: 0,
                ticks_reset: false,
                timer_acc: 0,
                timer_modulo: 0,
                timer_in_bit: false,
                timer_in_mask: 256,
                timer_enable: true,
            }),
            crate::spu::spu_initial(r@.mmu.spu),
            r@.mmu.joypad == (crate::joypad::JoypadView { p1: 0x1F, keys: 0 }),
    {
        Self {
            regs: Registers::default(),
            int_svc: InterruptService::default(),
            next_pc: 0,
            halted: false,
            mmu: Mmu::default(),
        }
    }
}

impl MemoryBus for Cpu {
    /// The CPU answers IF and IE.
    open spec fn reads_at(&self, addr: u16) -> bool {
        addr == IF_ADDR || addr == IE_ADDR
    }

    open spec fn writes_at(&self, addr: u16, data: u8) -> bool {
        addr == IF_ADDR || addr == IE_ADDR
    }

    fn read(&self, addr: u16) -> (r: u8)
        ensures
            r == bus_read(self@, addr),
    {
        if addr == IF_ADDR {
            self.int_svc.interrupt_latched_register()
        } else {
            self.int_svc.interrupt_enabled_register()
        }
    }

    fn write(&mut self, addr: u16, data: u8)
        ensures
            Some(final(self)@) == bus_write(old(self)@, addr, data),
    {
        if addr == IF_ADDR {
            self.int_svc.set_interrupt_latched_register(data);
        } else {
            self.int_svc.set_interrupt_enabled_register(data);
        }
    }
}

impl Cpu {
    /// A copy of the registers.
    pub fn registers(&self) -> (r: Registers)
        ensures
            r@ == self@.regs,
    {
        self.regs
    }

    /// Latches the interrupt requests of `source` into IF.
    pub fn request_interrupt(&mut self, source: Interrupt)
        ensures
            final(self)@ == (CpuView {
                ints: interrupt_service::IntView { iflag: old(self)@.ints.iflag | source@, ..old(self)@.ints },
                ..old(self)@
            }),
    {
        self.int_svc.latch_interrupt_flags(source);
    }

    /// Reads the CPU bus: IF and IE from the interrupt controller, the rest from the MMU.
    fn bus_read(&self, addr: u16) -> (r: u8)
        requires
            self@.mmu.wf(),
        ensures
            r == bus_read(self@, addr),
    {
        if addr == IF_ADDR || addr == IE_ADDR {
            self.read(addr)
        } else {
            self.mmu.read(addr)
        }
    }

    /// Writes the CPU bus; fails on a write that the machine cannot take.
    fn bus_write(&mut self, addr: u16, data: u8) -> (r: Result<(), Fault>)
        requires
            old(self)@.mmu.wf(),
        ensures
            write_outcome(r, final(self)@, bus_write(old(self)@, addr, data)),
            final(self)@.mmu.wf(),
            same_ppu_timing(old(self)@, final(self)@),
    {
        if addr == 0xFF41 && data >= 0x80 {
            return Err(Fault::ReservedStatBit);
        }
        if addr == IF_ADDR || addr == IE_ADDR {
            self.write(addr, data);
        } else {
            proof {
                crate::mmu::lemma_write_keeps_ppu_timing(self@.mmu, addr, data);
            }
            self.mmu.write(addr, data);
        }
        Ok(())
    }

    fn get_r8(&self, i: u8) -> (r: u8)
        requires
            i < 8,
            i != 6,
        ensures
            r == reg8(self@.regs, i),
    {
        if i == 0 {
            self.regs.b()
        } else if i == 1 {
            self.regs.c()
        } else if i == 2 {
            self.regs.d()
        } else if i == 3 {
            self.regs.e()
        } else if i == 4 {
            self.regs.h()
        } else if i == 5 {
            self.regs.l()
        } else {
            self.regs.a()
        }
    }

    fn set_r8(&mut self, i: u8, v: u8)
        requires
            i < 8,
            i != 6,
        ensures
            final(self)@ == (CpuView { regs: with_reg8(old(self)@.regs, i, v), ..old(self)@ }),
    {
        if i == 0 {
            self.regs.set_b(v)
        } else if i == 1 {
            self.regs.set_c(v)
        } else if i == 2 {
            self.regs.set_d(v)
        } else if i == 3 {
            self.regs.set_e(v)
        } else if i == 4 {
            self.regs.set_h(v)
        } else if i == 5 {
            self.regs.set_l(v)
        } else {
            self.regs.set_a(v)
        }
    }

    fn get_r16(&self, i: u8) -> (r: u16)
        requires
            i < 4,
        ensures
            r == reg16(self@.regs, i),
    {
        if i == 0 {
            self.regs.bc()
        } else if i == 1 {
            self.regs.de()
        } else if i == 2 {
            self.regs.hl()
        } else {
            self.regs.sp()
        }
    }

    fn set_r16(&mut self, i: u8, v: u16)
        requires
            i < 4,
        ensures
            final(self)@ == (CpuView { regs: with_reg16(old(self)@.regs, i, v), ..old(self)@ }),
    {
        if i == 0 {
            self.regs.set_bc(v)
        } else if i == 1 {
            self.regs.set_de(v)
        } else if i == 2 {
            self.regs.set_hl(v)
        } else {
            self.regs.set_sp(v)
        }
    }

    /// Operand number `i`: a register, or the byte at HL for 6.
    fn read_operand(&self, i: u8) -> (r: u8)
        requires
            i < 8,
            self@.mmu.wf(),
        ensures
            r == read_operand(self@, i),
    {
        if i == 6 {
            self.bus_read(self.regs.hl())
        } else {
            self.get_r8(i)
        }
    }

    /// Sets operand number `i`.
    fn write_operand(&mut self, i: u8, v: u8) -> (r: Result<(), Fault>)
        requires
            i < 8,
            old(self)@.mmu.wf(),
        ensures
            write_outcome(r, final(self)@, write_operand(old(self)@, i, v)),
            final(self)@.mmu.wf(),
            same_ppu_timing(old(self)@, final(self)@),
    {
        if i == 6 {
            let hl = self.regs.hl();
            self.bus_write(hl, v)
        } else {
            self.set_r8(i, v);
            Ok(())
        }
    }

    fn jump_absolute(&mut self, target: u16)
        ensures
            final(self)@ == with_next_pc(old(self)@, target),
    {
        self.next_pc = target;
    }

    fn jump_absolute_if(&mut self, target: u16, cond: bool) -> (r: u64)
        ensures
            final(self)@ == if cond { with_next_pc(old(self)@, target) } else { old(self)@ },
            r == if cond { 4u64 } else { 0u64 },
    {
        if cond {
            self.next_pc = target;
            4
        } else {
            0
        }
    }

    fn jump_relative(&mut self, offset: u8)
        ensures
            final(self)@ == relative_jump_spec(old(self)@, offset),
    {
        let offset: u16 = if offset < 128 {
            offset as u16
        } else {
            offset as u16 + 0xFF00
        };
        self.next_pc = self.next_pc.wrapping_add(offset)
    }

    fn jump_relative_if(&mut self, offset: u8, cond: bool) -> (r: u64)
        ensures
            final(self)@ == if cond {
                relative_jump_spec(old(self)@, offset)
            } else {
                old(self)@
            },
            r == if cond { 4u64 } else { 0u64 },
    {
        if cond {
            self.jump_relative(offset);
            4
        } else {
            0
        }
    }

    fn stack_push(&mut self, data: u16) -> (r: Result<(), Fault>)
        requires
            old(self)@.mmu.wf(),
        ensures
            write_outcome(r, final(self)@, push_spec(old(self)@, data)),
            final(self)@.mmu.wf(),
            same_ppu_timing(old(self)@, final(self)@),
    {
        let lsb = (data % 256) as u8;
        let msb = (data / 256) as u8;
        let sp = self.regs.sp();

        let sp = sp.wrapping_sub(1);
        self.bus_write(sp, msb)?;

        let sp = sp.wrapping_sub(1);
        self.bus_write(sp, lsb)?;

        self.regs.set_sp(sp);
        Ok(())
    }

    fn stack_pop(&mut self) -> (r: u16)
        requires
            old(self)@.mmu.wf(),
        ensures
            (final(self)@, r) == pop_spec(old(self)@),
    {
        let sp = self.regs.sp();

        let lsb = self.bus_read(sp);
        let sp = sp.wrapping_add(1);

        let msb = self.bus_read(sp);
        let sp = sp.wrapping_add(1);

        self.regs.set_sp(sp);
        join(msb, lsb)
    }

    fn subroutine_call(&mut self, target: u16) -> (r: Result<(), Fault>)
        requires
            old(self)@.mmu.wf(),
        ensures
            write_outcome(r, final(self)@, call_spec(old(self)@, target)),
            final(self)@.mmu.wf(),
            same_ppu_timing(old(self)@, final(self)@),
    {
        self.stack_push(self.next_pc)?;
        self.next_pc = target;
        Ok(())
    }

    fn subroutine_return(&mut self)
        requires
            old(self)@.mmu.wf(),
        ensures
            final(self)@ == return_spec(old(self)@),
    {
        self.next_pc = self.stack_pop();
    }
}


impl Cpu {
    /// Operation `kind` of the arithmetic / logic group (ADD, ADC, SUB, SBC, AND, XOR, OR, CP)
    /// on A with `arg`.
    fn execute_alu(&mut self, kind: u8, arg: u8)
        requires
            kind < 8,
        ensures
            alu_a_spec(old(self)@, kind, arg) == Some((final(self)@, 0u64)),
            same_ppu_timing(old(self)@, final(self)@),
    {
        let flags = self.regs.flags();
        let a = self.regs.a();
        let (f, r) = if kind == 0 {
            alu::add(a, arg)
        } else if kind == 1 {
            alu::adc(flags, a, arg)
        } else if kind == 2 {
            alu::sub(a, arg)
        } else if kind == 3 {
            alu::sbc(flags, a, arg)
        } else if kind == 4 {
            alu::and(a, arg)
        } else if kind == 5 {
            alu::xor(a, arg)
        } else if kind == 6 {
            alu::or(a, arg)
        } else {
            alu::sub(a, arg)
        };
        assert((f@, r) == alu_spec(kind, old(self)@.regs.f, old(self)@.regs.a, arg));
        self.regs.set_flags(f);
        if kind != 7 {
            self.regs.set_a(r);
        }
    }

    /// The CB-prefixed instruction `code`: rotations, shifts, SWAP, BIT, RES and SET on the
    /// operand `code % 8`.
    fn execute_cb(&mut self, code: u8) -> (r: Result<u64, Fault>)
        requires
            old(self)@.mmu.wf(),
        ensures
            step_outcome(r, final(self)@, cb_spec(old(self)@, code)),
            final(self)@.mmu.wf(),
            same_ppu_timing(old(self)@, final(self)@),
            r matches Ok(t) ==> t <= 12,
    {
        let i = code % 8;
        let arg = self.read_operand(i);
        let flags = self.regs.flags();
        let (f, ret) = if code < 0x08 {
            alu::rlc(arg)
        } else if code < 0x10 {
            alu::rrc(arg)
        } else if code < 0x18 {
            alu::rl(flags, arg)
        } else if code < 0x20 {
            alu::rr(flags, arg)
        } else if code < 0x28 {
            alu::sla(arg)
        } else if code < 0x30 {
            alu::sra(arg)
        } else if code < 0x38 {
            alu::nibble_swap(arg)
        } else if code < 0x40 {
            alu::srl(arg)
        } else if code < 0x80 {
            (alu::test_bit(flags, arg, (code - 0x40) / 8), arg)
        } else if code < 0xC0 {
            (flags, alu::reset_bit(arg, (code - 0x80) / 8))
        } else {
            (flags, alu::set_bit(arg, (code - 0xC0) / 8))
        };
        assert((f@, ret) == cb_result(code, old(self)@.regs.f, arg));
        self.regs.set_flags(f);
        if ret != arg {
            self.write_operand(i, ret)?;
        }
        Ok(0)
    }
}


impl Cpu {
    /// Condition number `cc` of the conditional jumps, calls and returns: NZ, Z, NC, C.
    fn condition(&self, cc: u8) -> (r: bool)
        ensures
            r == condition(self@.regs.f, cc),
    {
        let flags = self.regs.flags();
        if cc == 0 {
            !flags.zero()
        } else if cc == 1 {
            flags.zero()
        } else if cc == 2 {
            !flags.carry()
        } else {
            flags.carry()
        }
    }

    /// The address that LD (rr), A and LD A, (rr) of row `row` use.
    fn indirect_address(&self, row: u8) -> (r: u16)
        ensures
            r == indirect_addr(self@.regs, row),
    {
        if row == 0 {
            self.regs.bc()
        } else if row == 1 {
            self.regs.de()
        } else {
            self.regs.hl()
        }
    }

    /// The HL post-increment (row 2) or post-decrement (row 3) of LD (HL+/-), A and
    /// LD A, (HL+/-).
    fn indirect_step(&mut self, row: u8)
        ensures
            final(self)@ == (CpuView { regs: indirect_post(old(self)@.regs, row), ..old(self)@ }),
    {
        if row == 2 {
            let hl = self.regs.hl().wrapping_add(1);
            self.regs.set_hl(hl);
        } else if row == 3 {
            let hl = self.regs.hl().wrapping_sub(1);
            self.regs.set_hl(hl);
        }
    }

    /// Opcodes $00 to $3F that move 16-bit values: LD rr, d16, LD (rr), A, LD A, (rr),
    /// INC rr, DEC rr, ADD HL, rr.
    fn execute_low_pairs(&mut self, op: u8, imm16: u16) -> (r: Result<u64, Fault>)
        requires
            op < 0x40,
            op % 16 == 1 || op % 16 == 2 || op % 16 == 3 || op % 16 == 0xA || op % 16 == 0xB
                || op % 16 == 9,
            old(self)@.mmu.wf(),
        ensures
            step_outcome(r, final(self)@, low_pairs_spec(old(self)@, op, imm16)),
            final(self)@.mmu.wf(),
            same_ppu_timing(old(self)@, final(self)@),
            r matches Ok(t) ==> t <= 12,
    {
        let row = op / 16;
        let col = op % 16;
        if col == 1 {
            // LD rr, d16
            self.set_r16(row, imm16);
        } else if col == 2 {
            // LD (rr), A
            let addr = self.indirect_address(row);
            let a = self.regs.a();
            self.bus_write(addr, a)?;
            self.indirect_step(row);
        } else if col == 3 {
            // INC rr
            let v = alu::inc16(self.get_r16(row));
            self.set_r16(row, v);
        } else if col == 0xB {
            // DEC rr
            let v = alu::dec16(self.get_r16(row));
            self.set_r16(row, v);
        } else if col == 9 {
            // ADD HL, rr
            let (f, hl) = alu::add16(self.regs.flags(), self.regs.hl(), self.get_r16(row));
            self.regs.set_flags(f);
            self.regs.set_hl(hl);
        } else {
            // LD A, (rr)
            let addr = self.indirect_address(row);
            let a = self.bus_read(addr);
            self.regs.set_a(a);
            self.indirect_step(row);
        }
        Ok(0)
    }

    /// Opcodes $00 to $3F on an 8-bit operand: INC r, DEC r, LD r, d8.
    fn execute_low_operand(&mut self, op: u8, imm8: u8) -> (r: Result<u64, Fault>)
        requires
            op < 0x40,
            old(self)@.mmu.wf(),
        ensures
            step_outcome(r, final(self)@, low_operand_spec(old(self)@, op, imm8)),
            final(self)@.mmu.wf(),
            same_ppu_timing(old(self)@, final(self)@),
            final(self)@.mmu.wf(),
            r matches Ok(t) ==> t <= 12,
    {
        let i = op / 8;
        let col = op % 16;
        if col == 4 || col == 0xC {
            // INC r
            let v = self.read_operand(i);
            let (f, v) = alu::inc(self.regs.flags(), v);
            self.regs.set_flags(f);
            self.write_operand(i, v)?;
        } else if col == 5 || col == 0xD {
            // DEC r
            let v = self.read_operand(i);
            let (f, v) = alu::dec(self.regs.flags(), v);
            self.regs.set_flags(f);
            self.write_operand(i, v)?;
        } else {
            // LD r, d8
            self.write_operand(i, imm8)?;
        }
        Ok(0)
    }

    /// Opcodes $00 to $3F on A and the flags: RLCA, RRCA, RLA, RRA, DAA, CPL, SCF, CCF.
    fn execute_low_accumulator(&mut self, op: u8)
        ensures
            final(self)@ == low_accumulator_spec(old(self)@, op),
    {
        if op == 0x07 {
            // RLCA
            let (f, a) = alu::rlc(self.regs.a());
            self.regs.set_flags(f);
            self.regs.set_a(a);
        } else if op == 0x0F {
            // RRCA
            let (f, a) = alu::rrc(self.regs.a());
            self.regs.set_flags(f);
            self.regs.set_a(a);
        } else if op == 0x17 {
            // RLA
            let (f, a) = alu::rl(self.regs.flags(), self.regs.a());
            self.regs.set_flags(f);
            self.regs.set_a(a);
        } else if op == 0x1F {
            // RRA
            let (f, a) = alu::rr(self.regs.flags(), self.regs.a());
            self.regs.set_flags(f);
            self.regs.set_a(a);
        } else if op == 0x27 {
            // DAA
            let (f, a) = alu::daa(self.regs.flags(), self.regs.a());
            self.regs.set_flags(f);
            self.regs.set_a(a);
        } else if op == 0x2F {
            // CPL
            let (f, a) = alu::complement(self.regs.flags(), self.regs.a());
            self.regs.set_flags(f);
            self.regs.set_a(a);
        } else if op == 0x37 {
            // SCF
            let mut f = self.regs.flags();
            f.set_carry();
            self.regs.set_flags(f);
        } else {
            // CCF
            let mut f = self.regs.flags();
            f.reset_carry();
            self.regs.set_flags(f);
        }
    }

    /// LD (a16), SP: the low byte of SP at `addr`, the high byte at `addr + 1`.
    fn store_stack_pointer(&mut self, addr: u16) -> (r: Result<(), Fault>)
        requires
            old(self)@.mmu.wf(),
        ensures
            write_outcome(r, final(self)@, store_sp_spec(old(self)@, addr)),
            final(self)@.mmu.wf(),
            same_ppu_timing(old(self)@, final(self)@),
    {
        let bytes = registers::split(self.regs.sp());
        let (msb, lsb) = (bytes[0], bytes[1]);
        self.bus_write(addr, lsb)?;
        self.bus_write(addr.wrapping_add(1), msb)
    }

    /// Opcodes $00 to $3F: loads of immediates and through register pairs, 8- and 16-bit
    /// increments and decrements, rotations of A, relative jumps, DAA, CPL, SCF and CCF.
    fn execute_low_block(&mut self, op: u8, imm8: u8, imm16: u16) -> (r: Result<u64, Fault>)
        requires
            op < 0x40,
            old(self)@.mmu.wf(),
        ensures
            step_outcome(r, final(self)@, low_block_spec(old(self)@, op, imm8, imm16)),
            final(self)@.mmu.wf(),
            same_ppu_timing(old(self)@, final(self)@),
            r matches Ok(t) ==> t <= 12,
    {
        let col = op % 16;
        if op == 0x00 || op == 0x10 {
            // NOP, STOP
            Ok(0)
        } else if col == 1 || col == 2 || col == 3 || col == 9 || col == 0xA || col == 0xB {
            self.execute_low_pairs(op, imm16)
        } else if col == 4 || col == 5 || col == 6 || col == 0xC || col == 0xD || col == 0xE {
            self.execute_low_operand(op, imm8)
        } else if op == 0x08 {
            // LD (a16), SP
            self.store_stack_pointer(imm16)?;
            Ok(0)
        } else if op == 0x18 {
            // JR r8
            self.jump_relative(imm8);
            Ok(0)
        } else if col == 0 || col == 8 {
            // JR cc, r8
            let cond = self.condition((op / 8) % 4);
            Ok(self.jump_relative_if(imm8, cond))
        } else {
            self.execute_low_accumulator(op);
            Ok(0)
        }
    }
}


impl Cpu {
    /// Register pair number `i` of PUSH and POP: BC, DE, HL, AF.
    fn get_stack_r16(&self, i: u8) -> (r: u16)
        requires
            i < 4,
        ensures
            r == stack_reg16(self@.regs, i),
    {
        if i == 3 {
            self.regs.af()
        } else {
            self.get_r16(i)
        }
    }

    fn set_stack_r16(&mut self, i: u8, v: u16)
        requires
            i < 4,
        ensures
            final(self)@ == (CpuView { regs: with_stack_reg16(old(self)@.regs, i, v), ..old(self)@ }),
    {
        if i == 3 {
            self.regs.set_af(v)
        } else {
            self.set_r16(i, v)
        }
    }

    /// POP rr and PUSH rr.
    fn execute_stack(&mut self, op: u8) -> (r: Result<u64, Fault>)
        requires
            old(self)@.mmu.wf(),
        ensures
            step_outcome(r, final(self)@, stack_spec(old(self)@, op)),
            final(self)@.mmu.wf(),
            same_ppu_timing(old(self)@, final(self)@),
            r matches Ok(t) ==> t <= 12,
    {
        let row = (op / 16) % 4;
        if op % 16 == 1 {
            let v = self.stack_pop();
            self.set_stack_r16(row, v);
        } else {
            let v = self.get_stack_r16(row);
            self.stack_push(v)?;
        }
        Ok(0)
    }

    /// Jumps, calls, restarts and returns of $C0 to $FF.
    fn execute_control_transfer(&mut self, op: u8, imm16: u16) -> (r: Result<u64, Fault>)
        requires
            op >= 0xC0,
            is_control_transfer(op),
            old(self)@.mmu.wf(),
        ensures
            step_outcome(r, final(self)@, control_transfer_spec(old(self)@, op, imm16)),
            final(self)@.mmu.wf(),
            same_ppu_timing(old(self)@, final(self)@),
            r matches Ok(t) ==> t <= 12,
    {
        let col = op % 16;
        let cc = (op / 8) % 4;
        if op == 0xC0 || op == 0xC8 || op == 0xD0 || op == 0xD8 {
            // RET cc
            if self.condition(cc) {
                self.subroutine_return();
                Ok(12)
            } else {
                Ok(0)
            }
        } else if op == 0xC2 || op == 0xCA || op == 0xD2 || op == 0xDA {
            // JP cc, a16
            let cond = self.condition(cc);
            Ok(self.jump_absolute_if(imm16, cond))
        } else if op == 0xC3 {
            // JP a16
            self.jump_absolute(imm16);
            Ok(0)
        } else if op == 0xC4 || op == 0xCC || op == 0xD4 || op == 0xDC {
            // CALL cc, a16
            if self.condition(cc) {
                self.subroutine_call(imm16)?;
                Ok(12)
            } else {
                Ok(0)
            }
        } else if col == 7 || col == 0xF {
            // RST
            self.subroutine_call((op - 0xC7) as u16)?;
            Ok(0)
        } else if op == 0xC9 {
            // RET
            self.subroutine_return();
            Ok(0)
        } else if op == 0xD9 {
            // RETI
            self.int_svc.enable_interrupt();
            self.subroutine_return();
            Ok(0)
        } else if op == 0xCD {
            // CALL a16
            self.subroutine_call(imm16)?;
            Ok(0)
        } else {
            // JP HL
            let hl = self.regs.hl();
            self.jump_absolute(hl);
            Ok(0)
        }
    }

    /// Loads through the high page and absolute addresses, the SP arithmetic, DI and EI.
    fn execute_high_misc(&mut self, op: u8, imm8: u8, imm16: u16) -> (r: Result<u64, Fault>)
        requires
            old(self)@.mmu.wf(),
        ensures
            step_outcome(r, final(self)@, high_misc_spec(old(self)@, op, imm8, imm16)),
            final(self)@.mmu.wf(),
            same_ppu_timing(old(self)@, final(self)@),
            r matches Ok(t) ==> t <= 12,
    {
        if op == 0xE0 {
            // LDH (a8), A
            let a = self.regs.a();
            self.bus_write(0xFF00 + imm8 as u16, a)?;
        } else if op == 0xE2 {
            // LD (C), A
            let a = self.regs.a();
            self.bus_write(0xFF00 + self.regs.c() as u16, a)?;
        } else if op == 0xEA {
            // LD (a16), A
            let a = self.regs.a();
            self.bus_write(imm16, a)?;
        } else if op == 0xE8 {
            // ADD SP, r8
            let (f, sp) = alu::add16_with_s8(self.regs.sp(), imm8);
            self.regs.set_flags(f);
            self.regs.set_sp(sp);
        } else if op == 0xF0 {
            // LDH A, (a8)
            let a = self.bus_read(0xFF00 + imm8 as u16);
            self.regs.set_a(a);
        } else if op == 0xF2 {
            // LD A, (C)
            let a = self.bus_read(0xFF00 + self.regs.c() as u16);
            self.regs.set_a(a);
        } else if op == 0xFA {
            // LD A, (a16)
            let a = self.bus_read(imm16);
            self.regs.set_a(a);
        } else if op == 0xF3 {
            // DI
            self.int_svc.disable_interrupt();
        } else if op == 0xFB {
            // EI
            self.int_svc.enable_interrupt();
        } else if op == 0xF8 {
            // LD HL, SP+r8
            let (f, hl) = alu::add16_with_s8(self.regs.sp(), imm8);
            self.regs.set_flags(f);
            self.regs.set_hl(hl);
        } else if op == 0xF9 {
            // LD SP, HL
            let hl = self.regs.hl();
            self.regs.set_sp(hl);
        }
        Ok(0)
    }

    /// Opcodes $C0 to $FF.
    fn execute_high_block(&mut self, op: u8, imm8: u8, imm16: u16) -> (r: Result<u64, Fault>)
        requires
            op >= 0xC0,
            old(self)@.mmu.wf(),
        ensures
            step_outcome(r, final(self)@, high_block_spec(old(self)@, op, imm8, imm16)),
            final(self)@.mmu.wf(),
            same_ppu_timing(old(self)@, final(self)@),
            r matches Ok(t) ==> t <= 12,
    {
        let col = op % 16;
        if col == 1 || col == 5 {
            self.execute_stack(op)
        } else if col == 6 || col == 0xE {
            // ALU A, d8
            self.execute_alu((op / 8) % 8, imm8);
            Ok(0)
        } else if op == 0xCB {
            self.execute_cb(imm8)
        } else if op == 0xC0 || op == 0xC8 || op == 0xD0 || op == 0xD8 || op == 0xC2 || op == 0xCA
            || op == 0xD2 || op == 0xDA || op == 0xC3 || op == 0xC4 || op == 0xCC || op == 0xD4
            || op == 0xDC || op == 0xCD || op == 0xC9 || op == 0xD9 || op == 0xE9 || col == 7
            || col == 0xF {
            self.execute_control_transfer(op, imm16)
        } else {
            self.execute_high_misc(op, imm8, imm16)
        }
    }
}


impl Cpu {
    /// Decodes and executes `opcode` with its immediates: sets the address of the next
    /// instruction and returns the ticks the instruction took.
    fn fetch_decode_execute_store_cycle(&mut self, opcode: u8, imm8: u8, imm16: u16) -> (r: Result<
        u64,
        Fault,
    >)
        requires
            old(self)@.mmu.wf(),
        ensures
            step_outcome(r, final(self)@, execute_spec(old(self)@, opcode, imm8, imm16)),
            final(self)@.mmu.wf(),
            same_ppu_timing(old(self)@, final(self)@),
            r matches Ok(t) ==> 4 <= t <= 36,
    {
        proof {
            lemma_instruction_bounds(opcode);
            reveal(execute_spec);
        }
        let size = instruction_size(opcode);
        let pc = self.regs.pc();
        if pc > 0xFFFF - size {
            return Err(Fault::ProgramCounterOverflow);
        }
        self.next_pc = pc + size;
        let ticks = instruction_ticks(opcode);

        // Decode => Execute => Store
        let extra = if opcode < 0x40 {
            self.execute_low_block(opcode, imm8, imm16)?
        } else if opcode < 0x80 {
            if opcode == 0x76 {
                // HALT
                self.halted = true;
            } else {
                // LD r, r'
                let v = self.read_operand(opcode % 8);
                self.write_operand((opcode / 8) % 8, v)?;
            }
            0
        } else if opcode < 0xC0 {
            // ALU A, r
            let v = self.read_operand(opcode % 8);
            self.execute_alu((opcode / 8) % 8, v);
            0
        } else {
            self.execute_high_block(opcode, imm8, imm16)?
        };
        Ok(ticks + extra)
    }

    /// With some interrupt latched, a CPU halted by HALT resumes (skipping the byte after
    /// HALT when the master switch is off), and an instruction that jumped to its own address
    /// counts as halted: the next address moves on by one byte with the master switch on and
    /// by two with it off.
    fn wake_from_halt(&mut self)
        ensures
            final(self)@ == wake_spec(old(self)@),
    {
        if self.int_svc.interrupt_latched_flags().is_empty() {
            return;
        }
        if self.halted {
            self.halted = false;
            if !self.int_svc.enabled() {
                self.next_pc = self.next_pc.wrapping_add(1);
            }
        } else if self.regs.pc() == self.next_pc {
            self.next_pc = self.next_pc.wrapping_add(if self.int_svc.enabled() { 1 } else { 2 });
        }
    }

    /// The end of a cycle whose instruction took `ticks`.
    fn complete_cycle(&mut self, ticks: u64) -> (r: Result<u64, Fault>)
        requires
            old(self)@.mmu.wf(),
            4 <= ticks <= 36,
        ensures
            step_outcome(r, final(self)@, complete_spec(old(self)@, ticks)),
            final(self)@.mmu.wf(),
            same_ppu_timing(old(self)@, final(self)@),
            r matches Ok(t) ==> 4 <= t <= 48,
    {
        proof {
            reveal(complete_spec);
        }
        // HALT Handler
        self.wake_from_halt();

        // Execute Interruptions
        let mut ticks = ticks;
        match self.int_svc.interrupt_service_routine() {
            Some(addr) => {
                self.subroutine_call(addr)?;
                ticks = ticks + 12;
            },
            None => {},
        }
        let next = self.next_pc;
        self.regs.set_pc(next);
        Ok(ticks)
    }

    /// Runs one instruction: applies the EI / DI requests of the previous one, fetches and
    /// executes the instruction at PC (a halted CPU idles for 4 ticks instead), wakes a
    /// halted CPU when an interrupt is latched (an instruction that jumped to its own
    /// address counts as halted, see `wake_spec`),
    /// services the pending interrupt of highest priority and moves PC to the next
    /// instruction. Returns the clock ticks taken, or the fault that stopped the machine.
    pub fn cycle(&mut self) -> (r: Result<u64, Fault>)
        requires
            old(self)@.mmu.wf(),
        ensures
            step_outcome(r, final(self)@, cycle_spec(old(self)@)),
            final(self)@.mmu.wf(),
            same_ppu_timing(old(self)@, final(self)@),
            r matches Ok(t) ==> 4 <= t <= 48,
    {
        self.int_svc.interrupt_service_preamble();

        let pc = self.regs.pc();
        if self.halted {
            self.next_pc = pc;
            return self.complete_cycle(4);
        }
        let opcode = self.bus_read(pc);

        let pc = pc.wrapping_add(1);
        let imm8 = self.bus_read(pc);

        let pc = pc.wrapping_add(1);
        let imm16 = join(self.bus_read(pc), imm8);

        let ticks = self.fetch_decode_execute_store_cycle(opcode, imm8, imm16)?;
        self.complete_cycle(ticks)
    }
}

} // verus!
