use vstd::prelude::*;

use super::alu::{
    adc_spec, add16_spec, add16_with_s8_spec, add_spec, and_spec, complement_spec, daa_spec, dec_spec,
    inc_spec, nibble_swap_spec, or_spec, rl_spec, rlc_spec, rr_spec, rrc_spec, sbc_spec,
    sign_extend, sla_spec, sra_spec, srl_spec, sub_spec, test_bit_spec, wrap16, xor_spec,
};
use super::flags::FlagsView;
use super::instructions::{INST_SIZE, INST_TICKS};
use super::interrupt_service::{isr_spec, preamble_spec, IntView};
use super::registers::{pair, RegistersView};
use crate::mmu::{lemma_ram_read_after_write, mmu_read, mmu_write, ram_address, MmuView, IE_ADDR, IF_ADDR};

verus! {

/// The abstract state of the CPU and of the machine behind its bus.
pub struct CpuView {
    pub regs: RegistersView,
    pub ints: IntView,
    /// Address of the next instruction while one executes.
    pub next_pc: u16,
    /// Stopped by HALT until an interrupt is latched.
    pub halted: bool,
    pub mmu: MmuView,
}

/// The byte that a read at `addr` on the CPU bus gives: IF and IE from the interrupt
/// controller, everything else from the memory map.
pub open spec fn bus_read(s: CpuView, addr: u16) -> u8 {
    if addr == IF_ADDR {
        s.ints.iflag
    } else if addr == IE_ADDR {
        s.ints.ie
    } else {
        mmu_read(s.mmu, addr)
    }
}

/// A write that the machine cannot take: STAT has no bit 7.
pub open spec fn write_faults(addr: u16, data: u8) -> bool {
    addr == 0xFF41 && data >= 0x80
}

/// The machine after a write of `data` at `addr` on the CPU bus, or `None` when the write
/// faults.
pub open spec fn bus_write(s: CpuView, addr: u16, data: u8) -> Option<CpuView> {
    if write_faults(addr, data) {
        None
    } else if addr == IF_ADDR {
        Some(CpuView { ints: IntView { iflag: data & 0x1F, ..s.ints }, ..s })
    } else if addr == IE_ADDR {
        Some(CpuView { ints: IntView { ie: data & 0x1F, ..s.ints }, ..s })
    } else {
        Some(CpuView { mmu: mmu_write(s.mmu, addr, data), ..s })
    }
}

/// The PPU in `t` is at the same point of its frame (mode, line, tick counter) as in `s`.
pub open spec fn same_ppu_timing(s: CpuView, t: CpuView) -> bool {
    &&& t.mmu.ppu.ticks == s.mmu.ppu.ticks
    &&& t.mmu.ppu.stat.mode == s.mmu.ppu.stat.mode
    &&& t.mmu.ppu.scanline == s.mmu.ppu.scanline
}

/// 8-bit register number `i` of the instruction encoding: B, C, D, E, H, L, -, A.
pub open spec fn reg8(r: RegistersView, i: u8) -> u8 {
    if i == 0 {
        r.b
    } else if i == 1 {
        r.c
    } else if i == 2 {
        r.d
    } else if i == 3 {
        r.e
    } else if i == 4 {
        r.h
    } else if i == 5 {
        r.l
    } else {
        r.a
    }
}

/// The registers with 8-bit register number `i` set to `v`.
pub open spec fn with_reg8(r: RegistersView, i: u8, v: u8) -> RegistersView {
    if i == 0 {
        RegistersView { b: v, ..r }
    } else if i == 1 {
        RegistersView { c: v, ..r }
    } else if i == 2 {
        RegistersView { d: v, ..r }
    } else if i == 3 {
        RegistersView { e: v, ..r }
    } else if i == 4 {
        RegistersView { h: v, ..r }
    } else if i == 5 {
        RegistersView { l: v, ..r }
    } else {
        RegistersView { a: v, ..r }
    }
}

/// 16-bit register number `i` of the instruction encoding: BC, DE, HL, SP.
pub open spec fn reg16(r: RegistersView, i: u8) -> u16 {
    if i == 0 {
        r.bc()
    } else if i == 1 {
        r.de()
    } else if i == 2 {
        r.hl()
    } else {
        r.sp
    }
}

/// The registers with 16-bit register number `i` set to `v`.
pub open spec fn with_reg16(r: RegistersView, i: u8, v: u16) -> RegistersView {
    if i == 0 {
        r.with_bc(v)
    } else if i == 1 {
        r.with_de(v)
    } else if i == 2 {
        r.with_hl(v)
    } else {
        RegistersView { sp: v, ..r }
    }
}

/// Register pair number `i` of PUSH and POP: BC, DE, HL, AF.
pub open spec fn stack_reg16(r: RegistersView, i: u8) -> u16 {
    if i == 3 {
        r.af()
    } else {
        reg16(r, i)
    }
}

/// The registers with register pair number `i` of PUSH and POP set to `v`.
pub open spec fn with_stack_reg16(r: RegistersView, i: u8, v: u16) -> RegistersView {
    if i == 3 {
        r.with_af(v)
    } else {
        with_reg16(r, i, v)
    }
}

/// Operand number `i`: a register, or the byte at HL for 6.
pub open spec fn read_operand(s: CpuView, i: u8) -> u8 {
    if i == 6 {
        bus_read(s, s.regs.hl())
    } else {
        reg8(s.regs, i)
    }
}

/// The machine with operand number `i` set to `v`.
pub open spec fn write_operand(s: CpuView, i: u8, v: u8) -> Option<CpuView> {
    if i == 6 {
        bus_write(s, s.regs.hl(), v)
    } else {
        Some(CpuView { regs: with_reg8(s.regs, i, v), ..s })
    }
}

pub open spec fn with_regs(s: CpuView, r: RegistersView) -> CpuView {
    CpuView { regs: r, ..s }
}

pub open spec fn with_flags(s: CpuView, f: FlagsView) -> CpuView {
    CpuView { regs: RegistersView { f, ..s.regs }, ..s }
}

pub open spec fn with_next_pc(s: CpuView, pc: u16) -> CpuView {
    CpuView { next_pc: pc, ..s }
}

/// Condition number `cc` of the conditional jumps, calls and returns: NZ, Z, NC, C.
pub open spec fn condition(f: FlagsView, cc: u8) -> bool {
    if cc == 0 {
        !f.z
    } else if cc == 1 {
        f.z
    } else if cc == 2 {
        !f.c
    } else {
        f.c
    }
}

/// The machine after pushing `v` on the stack: high byte at SP-1, low byte at SP-2.
pub open spec fn push_spec(s: CpuView, v: u16) -> Option<CpuView> {
    let sp1 = wrap16(s.regs.sp - 1);
    match bus_write(s, sp1, (v / 256) as u8) {
        None => None,
        Some(s1) => {
            let sp2 = wrap16(sp1 - 1);
            match bus_write(s1, sp2, (v % 256) as u8) {
                None => None,
                Some(s2) => Some(CpuView { regs: RegistersView { sp: sp2, ..s2.regs }, ..s2 }),
            }
        },
    }
}

/// The machine after popping a value off the stack, and the value.
pub open spec fn pop_spec(s: CpuView) -> (CpuView, u16) {
    let sp = s.regs.sp;
    let lsb = bus_read(s, sp);
    let msb = bus_read(s, wrap16(sp + 1));
    (CpuView { regs: RegistersView { sp: wrap16(sp + 2), ..s.regs }, ..s }, pair(msb, lsb))
}

/// An instruction that completed without extra ticks.
pub open spec fn done(s: CpuView) -> Option<(CpuView, u64)> {
    Some((s, 0))
}

/// An instruction that ends with the machine `o`, if it did not fault.
pub open spec fn done_if(o: Option<CpuView>) -> Option<(CpuView, u64)> {
    match o {
        Some(s) => Some((s, 0)),
        None => None,
    }
}

/// The flags and result of arithmetic / logic operation `kind` on A: ADD, ADC, SUB, SBC,
/// AND, XOR, OR, CP.
pub open spec fn alu_spec(kind: u8, f: FlagsView, a: u8, arg: u8) -> (FlagsView, u8) {
    if kind == 0 {
        add_spec(a, arg)
    } else if kind == 1 {
        adc_spec(f, a, arg)
    } else if kind == 2 {
        sub_spec(a, arg)
    } else if kind == 3 {
        sbc_spec(f, a, arg)
    } else if kind == 4 {
        and_spec(a, arg)
    } else if kind == 5 {
        xor_spec(a, arg)
    } else if kind == 6 {
        or_spec(a, arg)
    } else {
        sub_spec(a, arg)
    }
}

/// Operation `kind` on A with `arg`; CP (7) keeps A.
pub open spec fn alu_a_spec(s: CpuView, kind: u8, arg: u8) -> Option<(CpuView, u64)> {
    let (f, r) = alu_spec(kind, s.regs.f, s.regs.a, arg);
    if kind == 7 {
        done(with_flags(s, f))
    } else {
        done(with_regs(s, RegistersView { f, a: r, ..s.regs }))
    }
}

/// The flags and result of the CB-prefixed operation `code` on `arg`.
pub open spec fn cb_result(code: u8, f: FlagsView, arg: u8) -> (FlagsView, u8) {
    if code < 0x08 {
        rlc_spec(arg)
    } else if code < 0x10 {
        rrc_spec(arg)
    } else if code < 0x18 {
        rl_spec(f, arg)
    } else if code < 0x20 {
        rr_spec(f, arg)
    } else if code < 0x28 {
        sla_spec(arg)
    } else if code < 0x30 {
        sra_spec(arg)
    } else if code < 0x38 {
        nibble_swap_spec(arg)
    } else if code < 0x40 {
        srl_spec(arg)
    } else if code < 0x80 {
        (test_bit_spec(f, arg, ((code - 0x40) / 8) as u8), arg)
    } else if code < 0xC0 {
        (f, arg & !(1u8 << ((code - 0x80) / 8) as u8))
    } else {
        (f, arg | (1u8 << ((code - 0xC0) / 8) as u8))
    }
}

/// The CB-prefixed instruction `code`: the operation on operand `code % 8`, whose result is
/// stored back only when it differs from the operand.
pub open spec fn cb_spec(s: CpuView, code: u8) -> Option<(CpuView, u64)> {
    let i = code % 8;
    let arg = read_operand(s, i);
    let (f, r) = cb_result(code, s.regs.f, arg);
    let s1 = with_flags(s, f);
    if r != arg {
        done_if(write_operand(s1, i, r))
    } else {
        done(s1)
    }
}

/// The address that LD (rr), A and LD A, (rr) use: BC, DE, HL (incremented after),
/// HL (decremented after).
pub open spec fn indirect_addr(r: RegistersView, row: u8) -> u16 {
    if row == 0 {
        r.bc()
    } else if row == 1 {
        r.de()
    } else {
        r.hl()
    }
}

/// The registers after the HL post-increment (row 2) or post-decrement (row 3).
pub open spec fn indirect_post(r: RegistersView, row: u8) -> RegistersView {
    if row == 2 {
        r.with_hl(wrap16(r.hl() + 1))
    } else if row == 3 {
        r.with_hl(wrap16(r.hl() - 1))
    } else {
        r
    }
}

/// Opcodes $00 to $3F that move 16-bit values: LD rr, d16 (column 1), LD (rr), A (2),
/// INC rr (3), ADD HL, rr (9), LD A, (rr) (A), DEC rr (B).
pub open spec fn low_pairs_spec(s: CpuView, op: u8, imm16: u16) -> Option<(CpuView, u64)> {
    let row = op / 16;
    let col = op % 16;
    let r = s.regs;
    if col == 1 {
        done(with_regs(s, with_reg16(r, row, imm16)))
    } else if col == 2 {
        match bus_write(s, indirect_addr(r, row), r.a) {
            Some(s1) => done(with_regs(s1, indirect_post(s1.regs, row))),
            None => None,
        }
    } else if col == 3 {
        done(with_regs(s, with_reg16(r, row, wrap16(reg16(r, row) + 1))))
    } else if col == 0xB {
        done(with_regs(s, with_reg16(r, row, wrap16(reg16(r, row) - 1))))
    } else if col == 9 {
        let (f, hl) = add16_spec(r.f, r.hl(), reg16(r, row));
        done(with_regs(s, RegistersView { f, ..r.with_hl(hl) }))
    } else {
        let a = bus_read(s, indirect_addr(r, row));
        done(with_regs(s, indirect_post(RegistersView { a, ..r }, row)))
    }
}

/// Opcodes $00 to $3F on the 8-bit operand `op / 8`: INC r (columns 4, C), DEC r (5, D),
/// LD r, d8 (6, E).
pub open spec fn low_operand_spec(s: CpuView, op: u8, imm8: u8) -> Option<(CpuView, u64)> {
    let col = op % 16;
    let i = op / 8;
    if col == 4 || col == 0xC {
        let (f, v) = inc_spec(s.regs.f, read_operand(s, i));
        done_if(write_operand(with_flags(s, f), i, v))
    } else if col == 5 || col == 0xD {
        let (f, v) = dec_spec(s.regs.f, read_operand(s, i));
        done_if(write_operand(with_flags(s, f), i, v))
    } else {
        done_if(write_operand(s, i, imm8))
    }
}

/// Opcodes $00 to $3F on A and the flags: RLCA, RRCA, RLA, RRA, DAA, CPL, SCF, CCF.
pub open spec fn low_accumulator_spec(s: CpuView, op: u8) -> CpuView {
    let r = s.regs;
    if op == 0x07 {
        let (f, a) = rlc_spec(r.a);
        with_regs(s, RegistersView { f, a, ..r })
    } else if op == 0x0F {
        let (f, a) = rrc_spec(r.a);
        with_regs(s, RegistersView { f, a, ..r })
    } else if op == 0x17 {
        let (f, a) = rl_spec(r.f, r.a);
        with_regs(s, RegistersView { f, a, ..r })
    } else if op == 0x1F {
        let (f, a) = rr_spec(r.f, r.a);
        with_regs(s, RegistersView { f, a, ..r })
    } else if op == 0x27 {
        let (f, a) = daa_spec(r.f, r.a);
        with_regs(s, RegistersView { f, a, ..r })
    } else if op == 0x2F {
        let (f, a) = complement_spec(r.f, r.a);
        with_regs(s, RegistersView { f, a, ..r })
    } else if op == 0x37 {
        // SCF
        with_flags(s, FlagsView { c: true, ..r.f })
    } else {
        // CCF (clears the carry)
        with_flags(s, FlagsView { c: false, ..r.f })
    }
}

/// LD (a16), SP: the low byte of SP at `addr`, the high byte at `addr + 1`.
pub open spec fn store_sp_spec(s: CpuView, addr: u16) -> Option<CpuView> {
    match bus_write(s, addr, (s.regs.sp % 256) as u8) {
        Some(s1) => bus_write(s1, wrap16(addr + 1), (s.regs.sp / 256) as u8),
        None => None,
    }
}

/// A jump relative to the next instruction by the signed offset `offset`.
pub open spec fn relative_jump_spec(s: CpuView, offset: u8) -> CpuView {
    with_next_pc(s, wrap16(s.next_pc + sign_extend(offset)))
}

/// Opcodes $00 to $3F.
pub open spec fn low_block_spec(s: CpuView, op: u8, imm8: u8, imm16: u16) -> Option<
    (CpuView, u64),
> {
    let col = op % 16;
    let r = s.regs;
    if op == 0x00 || op == 0x10 {
        // NOP, STOP
        done(s)
    } else if col == 1 || col == 2 || col == 3 || col == 9 || col == 0xA || col == 0xB {
        low_pairs_spec(s, op, imm16)
    } else if col == 4 || col == 5 || col == 6 || col == 0xC || col == 0xD || col == 0xE {
        low_operand_spec(s, op, imm8)
    } else if op == 0x08 {
        // LD (a16), SP
        done_if(store_sp_spec(s, imm16))
    } else if op == 0x18 {
        // JR r8
        done(relative_jump_spec(s, imm8))
    } else if col == 0 || col == 8 {
        // JR cc, r8
        if condition(r.f, (op / 8) % 4) {
            Some((relative_jump_spec(s, imm8), 4))
        } else {
            done(s)
        }
    } else {
        done(low_accumulator_spec(s, op))
    }
}

/// A call of `target`: the address of the next instruction is pushed.
pub open spec fn call_spec(s: CpuView, target: u16) -> Option<CpuView> {
    match push_spec(s, s.next_pc) {
        Some(s1) => Some(with_next_pc(s1, target)),
        None => None,
    }
}

/// A return: the address of the next instruction is popped.
pub open spec fn return_spec(s: CpuView) -> CpuView {
    let (s1, v) = pop_spec(s);
    with_next_pc(s1, v)
}

/// The opcodes of $C0 to $FF that transfer control: RET cc, JP cc, JP, CALL cc, RST, RET,
/// RETI, CALL and JP HL.
pub open spec fn is_control_transfer(op: u8) -> bool {
    ||| op == 0xC0 || op == 0xC8 || op == 0xD0 || op == 0xD8
    ||| op == 0xC2 || op == 0xCA || op == 0xD2 || op == 0xDA || op == 0xC3
    ||| op == 0xC4 || op == 0xCC || op == 0xD4 || op == 0xDC || op == 0xCD
    ||| op == 0xC9 || op == 0xD9 || op == 0xE9
    ||| op % 16 == 7 || op % 16 == 0xF
}

/// Control transfers of $C0 to $FF.
pub open spec fn control_transfer_spec(s: CpuView, op: u8, imm16: u16) -> Option<(CpuView, u64)> {
    let col = op % 16;
    let cc = (op / 8) % 4;
    let r = s.regs;
    if op == 0xC0 || op == 0xC8 || op == 0xD0 || op == 0xD8 {
        // RET cc
        if condition(r.f, cc) {
            Some((return_spec(s), 12))
        } else {
            done(s)
        }
    } else if op == 0xC2 || op == 0xCA || op == 0xD2 || op == 0xDA {
        // JP cc, a16
        if condition(r.f, cc) {
            Some((with_next_pc(s, imm16), 4))
        } else {
            done(s)
        }
    } else if op == 0xC3 {
        // JP a16
        done(with_next_pc(s, imm16))
    } else if op == 0xC4 || op == 0xCC || op == 0xD4 || op == 0xDC {
        // CALL cc, a16
        if condition(r.f, cc) {
            match call_spec(s, imm16) {
                Some(s1) => Some((s1, 12)),
                None => None,
            }
        } else {
            done(s)
        }
    } else if col == 7 || col == 0xF {
        // RST
        done_if(call_spec(s, (op - 0xC7) as u16))
    } else if op == 0xC9 {
        // RET
        done(return_spec(s))
    } else if op == 0xD9 {
        // RETI
        done(return_spec(CpuView { ints: IntView { enable_requested: true, ..s.ints }, ..s }))
    } else if op == 0xCD {
        // CALL a16
        done_if(call_spec(s, imm16))
    } else {
        // JP HL
        done(with_next_pc(s, r.hl()))
    }
}

/// POP rr (column 1) and PUSH rr (column 5) of $C0 to $FF.
pub open spec fn stack_spec(s: CpuView, op: u8) -> Option<(CpuView, u64)> {
    let row = (op / 16) % 4;
    if op % 16 == 1 {
        let (s1, v) = pop_spec(s);
        done(with_regs(s1, with_stack_reg16(s1.regs, row, v)))
    } else {
        done_if(push_spec(s, stack_reg16(s.regs, row)))
    }
}

/// Loads through the high page and absolute addresses, the SP arithmetic, DI and EI of
/// $C0 to $FF; the unused opcodes do nothing.
pub open spec fn high_misc_spec(s: CpuView, op: u8, imm8: u8, imm16: u16) -> Option<(CpuView, u64)> {
    let r = s.regs;
    if op == 0xE0 {
        // LDH (a8), A
        done_if(bus_write(s, (0xFF00 + imm8) as u16, r.a))
    } else if op == 0xE2 {
        // LD (C), A
        done_if(bus_write(s, (0xFF00 + r.c) as u16, r.a))
    } else if op == 0xEA {
        // LD (a16), A
        done_if(bus_write(s, imm16, r.a))
    } else if op == 0xE8 {
        // ADD SP, r8
        let (f, sp) = add16_with_s8_spec(r.sp, imm8);
        done(with_regs(s, RegistersView { f, sp, ..r }))
    } else if op == 0xF0 {
        // LDH A, (a8)
        done(with_regs(s, RegistersView { a: bus_read(s, (0xFF00 + imm8) as u16), ..r }))
    } else if op == 0xF2 {
        // LD A, (C)
        done(with_regs(s, RegistersView { a: bus_read(s, (0xFF00 + r.c) as u16), ..r }))
    } else if op == 0xFA {
        // LD A, (a16)
        done(with_regs(s, RegistersView { a: bus_read(s, imm16), ..r }))
    } else if op == 0xF3 {
        // DI
        done(CpuView { ints: IntView { disable_requested: true, ..s.ints }, ..s })
    } else if op == 0xFB {
        // EI
        done(CpuView { ints: IntView { enable_requested: true, ..s.ints }, ..s })
    } else if op == 0xF8 {
        // LD HL, SP+r8
        let (f, hl) = add16_with_s8_spec(r.sp, imm8);
        done(with_regs(s, RegistersView { f, ..r.with_hl(hl) }))
    } else if op == 0xF9 {
        // LD SP, HL
        done(with_regs(s, RegistersView { sp: r.hl(), ..r }))
    } else {
        // unused opcodes
        done(s)
    }
}

/// Opcodes $C0 to $FF.
pub open spec fn high_block_spec(s: CpuView, op: u8, imm8: u8, imm16: u16) -> Option<
    (CpuView, u64),
> {
    let col = op % 16;
    if col == 1 || col == 5 {
        stack_spec(s, op)
    } else if col == 6 || col == 0xE {
        // ALU A, d8
        alu_a_spec(s, (op / 8) % 8, imm8)
    } else if op == 0xCB {
        cb_spec(s, imm8)
    } else if is_control_transfer(op) {
        control_transfer_spec(s, op, imm16)
    } else {
        high_misc_spec(s, op, imm8, imm16)
    }
}

/// The instruction `op` with immediates `imm8` and `imm16`, once the address of the next
/// instruction is set: the machine after it and its extra ticks (taken branches), or `None`
/// when it faults.
pub open spec fn instruction_spec(s: CpuView, op: u8, imm8: u8, imm16: u16) -> Option<
    (CpuView, u64),
> {
    if op < 0x40 {
        low_block_spec(s, op, imm8, imm16)
    } else if op < 0x80 {
        if op == 0x76 {
            // HALT
            done(CpuView { halted: true, ..s })
        } else {
            // LD r, r'
            done_if(write_operand(s, (op / 8) % 8, read_operand(s, op % 8)))
        }
    } else if op < 0xC0 {
        // ALU A, r
        alu_a_spec(s, (op / 8) % 8, read_operand(s, op % 8))
    } else {
        high_block_spec(s, op, imm8, imm16)
    }
}

/// The execution of instruction `op` at PC: the machine after it and the ticks it took,
/// or `None` when it faults (the next instruction address passes $FFFF, or a write faults).
#[verifier::opaque]
pub open spec fn execute_spec(s: CpuView, op: u8, imm8: u8, imm16: u16) -> Option<(CpuView, u64)> {
    if s.regs.pc + INST_SIZE@[op as int] > 0xFFFF {
        None
    } else {
        let s0 = with_next_pc(s, (s.regs.pc + INST_SIZE@[op as int]) as u16);
        match instruction_spec(s0, op, imm8, imm16) {
            Some((s1, extra)) => Some((s1, (INST_TICKS@[op as int] + extra) as u64)),
            None => None,
        }
    }
}

/// The wake-up rule, applied after each instruction while some interrupt is latched (IF is
/// not zero): a CPU halted by HALT resumes, skipping the byte after HALT when the master
/// switch is off; and an instruction that jumped to its own address (a spin loop such as
/// `JR $FE`) counts as halted too, so the next address moves on by one byte with the master
/// switch on and by two with it off. With IF zero nothing changes.
pub open spec fn wake_spec(s: CpuView) -> CpuView {
    if s.ints.iflag == 0 {
        s
    } else if s.halted {
        CpuView {
            halted: false,
            next_pc: if s.ints.enabled {
                s.next_pc
            } else {
                wrap16(s.next_pc + 1)
            },
            ..s
        }
    } else if s.regs.pc == s.next_pc {
        with_next_pc(s, wrap16(s.next_pc + if s.ints.enabled { 1int } else { 2 }))
    } else {
        s
    }
}

/// The end of a cycle whose instruction took `ticks`: a halted CPU resumes, a pending
/// enabled interrupt is serviced (12 more ticks) and PC moves to the next instruction.
#[verifier::opaque]
pub open spec fn complete_spec(s: CpuView, ticks: u64) -> Option<(CpuView, u64)> {
    let s1 = wake_spec(s);
    let (ints, target) = isr_spec(s1.ints);
    match target {
        Some(addr) => match call_spec(CpuView { ints, ..s1 }, addr) {
            Some(s2) => Some(
                (with_regs(s2, RegistersView { pc: s2.next_pc, ..s2.regs }), (ticks + 12) as u64),
            ),
            None => None,
        },
        None => Some((with_regs(s1, RegistersView { pc: s1.next_pc, ..s1.regs }), ticks)),
    }
}

/// One CPU cycle: the EI / DI requests take effect; a halted CPU idles for 4 ticks, any
/// other executes the instruction at PC; the wake-up rule of `wake_spec` applies (a halted
/// CPU, or one that jumped to its own address, moves on when an interrupt is latched); a
/// pending enabled interrupt is serviced (12 more ticks), and PC moves to the next
/// instruction. `None` when the cycle faults.
pub open spec fn cycle_spec(s: CpuView) -> Option<(CpuView, u64)> {
    let s1 = CpuView { ints: preamble_spec(s.ints), ..s };
    let pc = s1.regs.pc;
    if s1.halted {
        complete_spec(with_next_pc(s1, pc), 4)
    } else {
        let opcode = bus_read(s1, pc);
        let imm8 = bus_read(s1, wrap16(pc + 1));
        let imm16 = pair(bus_read(s1, wrap16(pc + 2)), imm8);
        match execute_spec(s1, opcode, imm8, imm16) {
            None => None,
            Some((s2, ticks)) => complete_spec(s2, ticks),
        }
    }
}

/// With the two bytes below SP in RAM, a push succeeds and a pop then gives the pushed
/// value back and restores every register.
pub proof fn lemma_push_pop(s: CpuView, v: u16)
    requires
        s.mmu.wf(),
        ram_address(wrap16(s.regs.sp - 1)),
        ram_address(wrap16(s.regs.sp - 2)),
    ensures
        push_spec(s, v) is Some,
        pop_spec(push_spec(s, v)->0).1 == v,
        pop_spec(push_spec(s, v)->0).0.regs == s.regs,
{
    let sp1 = wrap16(s.regs.sp - 1);
    let sp2 = wrap16(sp1 - 1);
    let m1 = mmu_write(s.mmu, sp1, (v / 256) as u8);
    lemma_ram_read_after_write(s.mmu, sp1, (v / 256) as u8, sp1);
    lemma_ram_read_after_write(m1, sp2, (v % 256) as u8, sp2);
    lemma_ram_read_after_write(m1, sp2, (v % 256) as u8, sp1);
}

/// With the two bytes below SP in RAM, a call succeeds and a return then comes back to the
/// address of the next instruction with SP restored.
pub proof fn lemma_call_return(s: CpuView, target: u16)
    requires
        s.mmu.wf(),
        ram_address(wrap16(s.regs.sp - 1)),
        ram_address(wrap16(s.regs.sp - 2)),
    ensures
        call_spec(s, target) is Some,
        call_spec(s, target)->0.next_pc == target,
        return_spec(call_spec(s, target)->0).next_pc == s.next_pc,
        return_spec(call_spec(s, target)->0).regs == s.regs,
{
    lemma_push_pop(s, s.next_pc);
}

/// A CPU bus write to IE ($FFFF) enables exactly the five low bits of the written byte and
/// leaves the latched requests (IF) alone; a write to IF ($FF0F) latches exactly those bits
/// and leaves the enabled sources alone. Neither touches the registers or the memory map,
/// and a read right after either gives back the five low bits written.
pub proof fn lemma_interrupt_register_writes(s: CpuView, d: u8)
    ensures
        bus_write(s, IE_ADDR, d) is Some,
        bus_write(s, IE_ADDR, d)->0.ints.ie == d % 32,
        bus_write(s, IE_ADDR, d)->0.ints.iflag == s.ints.iflag,
        bus_write(s, IE_ADDR, d)->0.ints.enabled == s.ints.enabled,
        bus_write(s, IE_ADDR, d)->0.regs == s.regs,
        bus_write(s, IE_ADDR, d)->0.mmu == s.mmu,
        bus_read(bus_write(s, IE_ADDR, d)->0, IE_ADDR) == d % 32,
        bus_read(bus_write(s, IE_ADDR, d)->0, IF_ADDR) == s.ints.iflag,
        bus_write(s, IF_ADDR, d) is Some,
        bus_write(s, IF_ADDR, d)->0.ints.iflag == d % 32,
        bus_write(s, IF_ADDR, d)->0.ints.ie == s.ints.ie,
        bus_write(s, IF_ADDR, d)->0.ints.enabled == s.ints.enabled,
        bus_write(s, IF_ADDR, d)->0.regs == s.regs,
        bus_write(s, IF_ADDR, d)->0.mmu == s.mmu,
        bus_read(bus_write(s, IF_ADDR, d)->0, IF_ADDR) == d % 32,
        bus_read(bus_write(s, IF_ADDR, d)->0, IE_ADDR) == s.ints.ie,
{
    assert(d & 0x1F == d % 32) by (bit_vector);
}

} // verus!
