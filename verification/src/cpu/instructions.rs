use vstd::prelude::*;

verus! {

broadcast use vstd::string::to_string_from_display_ensures_for_str;

/// The size in bytes of each instruction, by opcode (the CB prefix counts its second byte).
pub const INST_SIZE: [u8; 256] = [
//  0  1  2  3  4  5  6  7  8  9  A  B  C  D  E  F
    1, 3, 1, 1, 1, 1, 2, 1, 3, 1, 1, 1, 1, 1, 2, 1,    // 0x00 ~ 0x0F
    2, 3, 1, 1, 1, 1, 2, 1, 2, 1, 1, 1, 1, 1, 2, 1,    // 0x10 ~ 0x1F
    2, 3, 1, 1, 1, 1, 2, 1, 2, 1, 1, 1, 1, 1, 2, 1,    // 0x20 ~ 0x2F
    2, 3, 1, 1, 1, 1, 2, 1, 2, 1, 1, 1, 1, 1, 2, 1,    // 0x30 ~ 0x3F

    1, 1, 1, 1, 1, 1, 1, 1, 1, 1, 1, 1, 1, 1, 1, 1,    // 0x40 ~ 0x4F
    1, 1, 1, 1, 1, 1, 1, 1, 1, 1, 1, 1, 1, 1, 1, 1,    // 0x50 ~ 0x5F
    1, 1, 1, 1, 1, 1, 1, 1, 1, 1, 1, 1, 1, 1, 1, 1,    // 0x60 ~ 0x6F
    1, 1, 1, 1, 1, 1, 1, 1, 1, 1, 1, 1, 1, 1, 1, 1,    // 0x70 ~ 0x7F
    1, 1, 1, 1, 1, 1, 1, 1, 1, 1, 1, 1, 1, 1, 1, 1,    // 0x80 ~ 0x8F
    1, 1, 1, 1, 1, 1, 1, 1, 1, 1, 1, 1, 1, 1, 1, 1,    // 0x90 ~ 0x9F
    1, 1, 1, 1, 1, 1, 1, 1, 1, 1, 1, 1, 1, 1, 1, 1,    // 0xA0 ~ 0xAF
    1, 1, 1, 1, 1, 1, 1, 1, 1, 1, 1, 1, 1, 1, 1, 1,    // 0xB0 ~ 0xBF

    1, 1, 3, 3, 3, 1, 2, 1, 1, 1, 3, 2, 3, 3, 2, 1,    // 0xC0 ~ 0xCF
    1, 1, 3, 1, 3, 1, 2, 1, 1, 1, 3, 1, 3, 1, 2, 1,    // 0xD0 ~ 0xDF
    2, 1, 1, 1, 1, 1, 2, 1, 2, 1, 3, 1, 1, 1, 2, 1,    // 0xE0 ~ 0xEF
    2, 1, 2, 1, 1, 1, 2, 1, 2, 1, 3, 1, 1, 1, 2, 1,    // 0xF0 ~ 0xFF
];

/// The duration in clock ticks of each instruction, by opcode, when no branch is taken.
pub const INST_TICKS: [u8; 256] = [
//  x0  x1  x2  x3  x4  x5  x6  x7  x8  x9  xA  xB  xC  xD  xE  xF
    4,  12, 8,  8,  4,  4,  8,  4,  20, 8,  8,  8,  4,  4,  8,  4,    // 0x00 ~ 0x0F
    4,  12, 8,  8,  4,  4,  8,  4,  12, 8,  8,  8,  4,  4,  8,  4,    // 0x10 ~ 0x1F
    8,  12, 8,  8,  4,  4,  8,  4,  8,  8,  8,  8,  4,  4,  8,  4,    // 0x20 ~ 0x2F
    8,  12, 8,  8, 12, 12, 12,  4,  8,  8,  8,  8,  4,  4,  8,  4,    // 0x30 ~ 0x3F

    4,  4,  4,  4,  4,  4,  8,  4,  4,  4,  4,  4,  4,  4,  8,  4,    // 0x40 ~ 0x4F
    4,  4,  4,  4,  4,  4,  8,  4,  4,  4,  4,  4,  4,  4,  8,  4,    // 0x50 ~ 0x5F
    4,  4,  4,  4,  4,  4,  8,  4,  4,  4,  4,  4,  4,  4,  8,  4,    // 0x60 ~ 0x6F
    8,  8,  8,  8,  8,  8,  4,  8,  4,  4,  4,  4,  4,  4,  8,  4,    // 0x70 ~ 0x7F

    4,  4,  4,  4,  4,  4,  8,  4,  4,  4,  4,  4,  4,  4,  8,  4,    // 0x80 ~ 0x8F
    4,  4,  4,  4,  4,  4,  8,  4,  4,  4,  4,  4,  4,  4,  8,  4,    // 0x90 ~ 0x9F
    4,  4,  4,  4,  4,  4,  8,  4,  4,  4,  4,  4,  4,  4,  8,  4,    // 0xA0 ~ 0xAF
    4,  4,  4,  4,  4,  4,  8,  4,  4,  4,  4,  4,  4,  4,  8,  4,    // 0xB0 ~ 0xBF

    8,  12, 12, 16, 12, 16, 8,  16, 8,  16, 12, 8,  12, 24, 8,  16,    // 0xC0 ~ 0xCF
    8,  12, 12, 4,  12, 16, 8,  16, 8,  16, 12, 4,  12, 4,  8,  16,    // 0xD0 ~ 0xDF
    12, 12, 8,  4,  4,  16, 8,  16, 16, 4,  16, 4,  4,  4,  8,  16,    // 0xE0 ~ 0xEF
    12, 12, 8,  4,  4,  16, 8,  16, 12, 8,  16, 4,  4,  4,  8,  16,    // 0xF0 ~ 0xFF
];

/// The size in bytes of the instruction with the given opcode.
pub fn instruction_size(opcode: u8) -> (r: u16)
    ensures
        r == INST_SIZE@[opcode as int],
{
    INST_SIZE[opcode as usize] as u16
}

/// The duration in clock ticks of the instruction with the given opcode, when no branch
/// is taken.
pub fn instruction_ticks(opcode: u8) -> (r: u64)
    ensures
        r == INST_TICKS@[opcode as int],
{
    INST_TICKS[opcode as usize] as u64
}

/// Every instruction takes between one and three bytes and at least four ticks.
pub proof fn lemma_instruction_bounds(opcode: u8)
    ensures
        1 <= INST_SIZE@[opcode as int] <= 3,
        4 <= INST_TICKS@[opcode as int] <= 24,
{
}


/// The assembly text of each instruction, by opcode; `$00` and `$0000` stand for the
/// immediate operand.
pub const INST_ASM: [&'static str; 256] = [
    // 0x00 ~ 0x0F
    "NOP",
    "LD BC, $0000",
    "LD (BC), A",
    "INC BC",
    "INC B",
    "DEC B",
    "LD B, $00",
    "RLCA",
    "LD ($0000),SP",
    "ADD HL, BC",
    "LD A, (BC)",
    "DEC BC",
    "INC C",
    "DEC C",
    "LD C, $00",
    "RRCA",
    // 0x10 ~ 0x1F
    "STOP 0",
    "LD DE, $0000",
    "LD (DE), A",
    "INC DE",
    "INC D",
    "DEC D",
    "LD D, $00",
    "RLA",
    "JR $00",
    "ADD HL, DE",
    "LD A, (DE)",
    "DEC DE",
    "INC E",
    "DEC E",
    "LD E, $00",
    "RRA",
    // 0x20 ~ 0x2F
    "JR NZ $00",
    "LD HL, $0000",
    "LDI (HL), A",
    "INC HL",
    "INC H",
    "DEC H",
    "LD H, $00",
    "DAA",
    "JR Z $00",
    "ADD HL, HL",
    "LDI A, (HL)",
    "DEC HL",
    "INC L",
    "DEC L",
    "LD L, $00",
    "CPL",
    // 0x30 ~ 0x3F
    "JR NC $00",
    "LD SP, $0000",
    "LDD (HL), A",
    "INC SP",
    "INC (HL)",
    "DEC (HL)",
    "LD (HL), $00",
    "SCF",
    "JR C $00",
    "ADD HL, SP",
    "LDD A, (HL)",
    "DEC SP",
    "INC A",
    "DEC A",
    "LD A, $00",
    "CCF",
    // 0x40 ~ 0x4F
    "LD B, B",
    "LD B, C",
    "LD B, D",
    "LD B, E",
    "LD B, H",
    "LD B, L",
    "LD B, (HL)",
    "LD B, A",
    "LD C, B",
    "LD C, C",
    "LD C, D",
    "LD C, E",
    "LD C, H",
    "LD C, L",
    "LD C, (HL)",
    "LD C, A",
    // 0x50 ~ 0x5F
    "LD D, B",
    "LD D, C",
    "LD D, D",
    "LD D, E",
    "LD D, H",
    "LD D, L",
    "LD D, (HL)",
    "LD D, A",
    "LD E, B",
    "LD E, C",
    "LD E, D",
    "LD E, E",
    "LD E, H",
    "LD E, L",
    "LD E, (HL)",
    "LD E, A",
    // 0x60 ~ 0x6F
    "LD H, B",
    "LD H, C",
    "LD H, D",
    "LD H, E",
    "LD H, H",
    "LD H, L",
    "LD H, (HL)",
    "LD H, A",
    "LD L, B",
    "LD L, C",
    "LD L, D",
    "LD L, E",
    "LD L, H",
    "LD L, L",
    "LD L, (HL)",
    "LD L, A",
    // 0x70 ~ 0x7F
    "LD (HL), B",
    "LD (HL), C",
    "LD (HL), D",
    "LD (HL), E",
    "LD (HL), H",
    "LD (HL), L",
    "LD (HL), (HL)",
    "LD (HL), A",
    "LD A, B",
    "LD A, C",
    "LD A, D",
    "LD A, E",
    "LD A, H",
    "LD A, L",
    "LD A, (HL)",
    "LD A, A",
    // 0x80 ~ 0x8F
    "ADD A, B",
    "ADD A, C",
    "ADD A, D",
    "ADD A, E",
    "ADD A, H",
    "ADD A, L",
    "ADD A, (HL)",
    "ADD A, A",
    "ADC A, B",
    "ADC A, C",
    "ADC A, D",
    "ADC A, E",
    "ADC A, H",
    "ADC A, L",
    "ADC A, (HL)",
    "ADC A, A",
    // 0x90 ~ 0x9F
    "SUB A, B",
    "SUB A, C",
    "SUB A, D",
    "SUB A, E",
    "SUB A, H",
    "SUB A, L",
    "SUB A, (HL)",
    "SUB A, A",
    "SBC A, B",
    "SBC A, C",
    "SBC A, D",
    "SBC A, E",
    "SBC A, H",
    "SBC A, L",
    "SBC A, (HL)",
    "SBC A, A",
    // 0xA0 ~ 0xAF
    "AND A, B",
    "AND A, C",
    "AND A, D",
    "AND A, E",
    "AND A, H",
    "AND A, L",
    "AND A, (HL)",
    "AND A, A",
    "XOR A, B",
    "XOR A, C",
    "XOR A, D",
    "XOR A, E",
    "XOR A, H",
    "XOR A, L",
    "XOR A, (HL)",
    "XOR A, A",
    // 0xB0 ~ 0xBF
    "OR A, B",
    "OR A, C",
    "OR A, D",
    "OR A, E",
    "OR A, H",
    "OR A, L",
    "OR A, (HL)",
    "OR A, A",
    "CP A, B",
    "CP A, C",
    "CP A, D",
    "CP A, E",
    "CP A, H",
    "CP A, L",
    "CP A, (HL)",
    "CP A, A",
    // 0xC0 ~ 0xCF
    "RET NZ",
    "POP BC",
    "JP NZ $0000",
    "JP $0000",
    "CALL NZ $0000",
    "PUSH BC",
    "ADD A, $00",
    "RST $00",
    "RET Z",
    "RET",
    "JP Z $0000",
    "PREFIX CB",
    "CALL Z $0000",
    "CALL $0000",
    "ADC A, $00",
    "RST $08",
    // 0xD0 ~ 0xDF
    "RET NC",
    "POP DE",
    "JP NC $0000",
    "[D3] - INVALID;",
    "CALL NC $0000",
    "PUSH DE",
    "SUB $00",
    "RST $10",
    "RET C",
    "RETI",
    "JP C $0000",
    "[DB] - INVALID;",
    "CALL C $0000",
    "[DD] - INVALID;",
    "SBC A, $00",
    "RST $18",
    // 0xE0 ~ 0xEF
    "LDH ($FF$00),A;",
    "POP HL",
    "LD (C), A",
    "[E3] - INVALID;",
    "[E4] - INVALID;",
    "PUSH HL",
    "AND $00",
    "RST $20",
    "ADD SP,$00",
    "JP HL",
    "LD ($0000), A",
    "[EB] - INVALID;",
    "[EC] - INVALID;",
    "[ED] - INVALID;",
    "XOR $00",
    "RST $28",
    // 0xF0 ~ 0xFF
    "LDH A,($FF$00);",
    "POP AF",
    "LD A, (C)",
    "DI",
    "[F4] - INVALID;",
    "PUSH AF",
    "OR $00",
    "RST $30",
    "LD HL, SP+$00;",
    "LD SP, HL",
    "LD A, ($0000)",
    "EI",
    "[FC] - INVALID;",
    "[FD] - INVALID;",
    "CP $00",
    "RST $38",
];

/// The assembly text of each CB-prefixed instruction, by its second byte.
pub const INST_ASM_CB: [&'static str; 256] = [
    // 0x00 ~ 0x0F
    "RLC B",
    "RLC C",
    "RLC D",
    "RLC E",
    "RLC H",
    "RLC L",
    "RLC (HL)",
    "RLC A",
    "RRC B",
    "RRC C",
    "RRC D",
    "RRC E",
    "RRC H",
    "RRC L",
    "RRC (HL)",
    "RRC A",
    // 0x10 ~ 0x1F
    "RL B",
    "RL C",
    "RL D",
    "RL E",
    "RL H",
    "RL L",
    "RL (HL)",
    "RL A",
    "RR B",
    "RR C",
    "RR D",
    "RR E",
    "RR H",
    "RR L",
    "RR (HL)",
    "RR A",
    // 0x20 ~ 0x2F
    "SLA B",
    "SLA C",
    "SLA D",
    "SLA E",
    "SLA H",
    "SLA L",
    "SLA (HL)",
    "SLA A",
    "SRA B",
    "SRA C",
    "SRA D",
    "SRA E",
    "SRA H",
    "SRA L",
    "SRA (HL)",
    "SRA A",
    // 0x30 ~ 0x3F
    "SWAP B",
    "SWAP C",
    "SWAP D",
    "SWAP E",
    "SWAP H",
    "SWAP L",
    "SWAP (HL)",
    "SWAP A",
    "SRL B",
    "SRL C",
    "SRL D",
    "SRL E",
    "SRL H",
    "SRL L",
    "SRL (HL)",
    "SRL A",
    // 0x40 ~ 0x4F
    "BIT 0, B",
    "BIT 0, C",
    "BIT 0, D",
    "BIT 0, E",
    "BIT 0, H",
    "BIT 0, L",
    "BIT 0, (HL)",
    "BIT 0, A",
    "BIT 1, B",
    "BIT 1, C",
    "BIT 1, D",
    "BIT 1, E",
    "BIT 1, H",
    "BIT 1, L",
    "BIT 1, (HL)",
    "BIT 1, A",
    // 0x50 ~ 0x5F
    "BIT 2, B",
    "BIT 2, C",
    "BIT 2, D",
    "BIT 2, E",
    "BIT 2, H",
    "BIT 2, L",
    "BIT 2, (HL)",
    "BIT 2, A",
    "BIT 3, B",
    "BIT 3, C",
    "BIT 3, D",
    "BIT 3, E",
    "BIT 3, H",
    "BIT 3, L",
    "BIT 3, (HL)",
    "BIT 3, A",
    // 0x60 ~ 0x6F
    "BIT 4, B",
    "BIT 4, C",
    "BIT 4, D",
    "BIT 4, E",
    "BIT 4, H",
    "BIT 4, L",
    "BIT 4, (HL)",
    "BIT 4, A",
    "BIT 5, B",
    "BIT 5, C",
    "BIT 5, D",
    "BIT 5, E",
    "BIT 5, H",
    "BIT 5, L",
    "BIT 5, (HL)",
    "BIT 5, A",
    // 0x70 ~ 0x7F
    "BIT 6, B",
    "BIT 6, C",
    "BIT 6, D",
    "BIT 6, E",
    "BIT 6, H",
    "BIT 6, L",
    "BIT 6, (HL)",
    "BIT 6, A",
    "BIT 7, B",
    "BIT 7, C",
    "BIT 7, D",
    "BIT 7, E",
    "BIT 7, H",
    "BIT 7, L",
    "BIT 7, (HL)",
    "BIT 7, A",
    // 0x80 ~ 0x8F
    "RES 0, B",
    "RES 0, C",
    "RES 0, D",
    "RES 0, E",
    "RES 0, H",
    "RES 0, L",
    "RES 0, (HL)",
    "RES 0, A",
    "RES 1, B",
    "RES 1, C",
    "RES 1, D",
    "RES 1, E",
    "RES 1, H",
    "RES 1, L",
    "RES 1, (HL)",
    "RES 1, A",
    // 0x90 ~ 0x9F
    "RES 2, B",
    "RES 2, C",
    "RES 2, D",
    "RES 2, E",
    "RES 2, H",
    "RES 2, L",
    "RES 2, (HL)",
    "RES 2, A",
    "RES 3, B",
    "RES 3, C",
    "RES 3, D",
    "RES 3, E",
    "RES 3, H",
    "RES 3, L",
    "RES 3, (HL)",
    "RES 3, A",
    // 0xA0 ~ 0xAF
    "RES 4, B",
    "RES 4, C",
    "RES 4, D",
    "RES 4, E",
    "RES 4, H",
    "RES 4, L",
    "RES 4, (HL)",
    "RES 4, A",
    "RES 5, B",
    "RES 5, C",
    "RES 5, D",
    "RES 5, E",
    "RES 5, H",
    "RES 5, L",
    "RES 5, (HL)",
    "RES 5, A",
    // 0xB0 ~ 0xBF
    "RES 6, B",
    "RES 6, C",
    "RES 6, D",
    "RES 6, E",
    "RES 6, H",
    "RES 6, L",
    "RES 6, (HL)",
    "RES 6, A",
    "RES 7, B",
    "RES 7, C",
    "RES 7, D",
    "RES 7, E",
    "RES 7, H",
    "RES 7, L",
    "RES 7, (HL)",
    "RES 7, A",
    // 0xC0 ~ 0xCF
    "SET 0, B",
    "SET 0, C",
    "SET 0, D",
    "SET 0, E",
    "SET 0, H",
    "SET 0, L",
    "SET 0, (HL)",
    "SET 0, A",
    "SET 1, B",
    "SET 1, C",
    "SET 1, D",
    "SET 1, E",
    "SET 1, H",
    "SET 1, L",
    "SET 1, (HL)",
    "SET 1, A",
    // 0xD0 ~ 0xDF
    "SET 2, B",
    "SET 2, C",
    "SET 2, D",
    "SET 2, E",
    "SET 2, H",
    "SET 2, L",
    "SET 2, (HL)",
    "SET 2, A",
    "SET 3, B",
    "SET 3, C",
    "SET 3, D",
    "SET 3, E",
    "SET 3, H",
    "SET 3, L",
    "SET 3, (HL)",
    "SET 3, A",
    // 0xE0 ~ 0xEF
    "SET 4, B",
    "SET 4, C",
    "SET 4, D",
    "SET 4, E",
    "SET 4, H",
    "SET 4, L",
    "SET 4, (HL)",
    "SET 4, A",
    "SET 5, B",
    "SET 5, C",
    "SET 5, D",
    "SET 5, E",
    "SET 5, H",
    "SET 5, L",
    "SET 5, (HL)",
    "SET 5, A",
    // 0xF0 ~ 0xFF
    "SET 6, B",
    "SET 6, C",
    "SET 6, D",
    "SET 6, E",
    "SET 6, H",
    "SET 6, L",
    "SET 6, (HL)",
    "SET 6, A",
    "SET 7, B",
    "SET 7, C",
    "SET 7, D",
    "SET 7, E",
    "SET 7, H",
    "SET 7, L",
    "SET 7, (HL)",
    "SET 7, A",
];

/// The hexadecimal digits, by value.
pub const HEX_DIGITS: [&'static str; 16] = [
    "0", "1", "2", "3", "4", "5", "6", "7", "8", "9", "A", "B", "C", "D", "E", "F",
];

/// The uppercase hexadecimal digit of `d` (0 to 15).
pub open spec fn hex_char(d: int) -> char {
    if d < 10 {
        (d + 48) as char
    } else {
        (d + 55) as char
    }
}

/// The last `n` uppercase hexadecimal digits of `v`.
pub open spec fn hex_digits(v: nat, n: nat) -> Seq<char>
    decreases n,
{
    if n == 0 {
        Seq::empty()
    } else {
        hex_digits(v / 16, (n - 1) as nat).push(hex_char((v % 16) as int))
    }
}

/// `s` with every match of the non-empty `from`, taken left to right without overlap,
/// replaced by `to`.
pub open spec fn replace_all(s: Seq<char>, from: Seq<char>, to: Seq<char>) -> Seq<char>
    recommends
        from.len() > 0,
    decreases s.len(),
{
    if s.len() < from.len() || from.len() == 0 {
        s
    } else if s.subrange(0, from.len() as int) == from {
        to + replace_all(s.subrange(from.len() as int, s.len() as int), from, to)
    } else {
        seq![s[0]] + replace_all(s.subrange(1, s.len() as int), from, to)
    }
}

/// The text of instruction `opcode` with its immediates: the CB-prefixed instruction of
/// `immediate8` for $CB, else the assembly text with the operand placeholder of a two-byte
/// instruction replaced by `$` and two hexadecimal digits of `immediate8`, or that of a
/// three-byte instruction by `$` and four digits of `immediate16`.
pub open spec fn disassembly(opcode: u8, immediate8: u8, immediate16: u16) -> Seq<char> {
    if opcode == 0xCB {
        INST_ASM_CB@[immediate8 as int]@
    } else if INST_SIZE@[opcode as int] == 1 {
        INST_ASM@[opcode as int]@
    } else if INST_SIZE@[opcode as int] == 2 {
        replace_all(
            INST_ASM@[opcode as int]@,
            seq!['$', '0', '0'],
            seq!['$'] + hex_digits(immediate8 as nat, 2),
        )
    } else {
        replace_all(
            INST_ASM@[opcode as int]@,
            seq!['$', '0', '0', '0', '0'],
            seq!['$'] + hex_digits(immediate16 as nat, 4),
        )
    }
}

/// `str::replace`: `s` with every match of `from` replaced by `to`, matches taken left to
/// right without overlap. The contract is what std documents for a non-empty pattern.
#[verifier::external_body]
fn replace(s: &str, from: &str, to: &str) -> (r: String)
    requires
        from@.len() > 0,
    ensures
        r@ == replace_all(s@, from@, to@),
{
    s.replace(from, to)
}

/// Each entry of the digit table holds the digit of its value.
proof fn lemma_hex_table()
    ensures
        forall|d: int| 0 <= d < 16 ==> #[trigger] HEX_DIGITS@[d]@ == seq![hex_char(d)],
{
    reveal_strlit("0");
    reveal_strlit("1");
    reveal_strlit("2");
    reveal_strlit("3");
    reveal_strlit("4");
    reveal_strlit("5");
    reveal_strlit("6");
    reveal_strlit("7");
    reveal_strlit("8");
    reveal_strlit("9");
    reveal_strlit("A");
    reveal_strlit("B");
    reveal_strlit("C");
    reveal_strlit("D");
    reveal_strlit("E");
    reveal_strlit("F");
    assert forall|d: int| 0 <= d < 16 implies #[trigger] HEX_DIGITS@[d]@ == seq![hex_char(d)] by {
        assert(HEX_DIGITS@[d]@ =~= seq![hex_char(d)]);
    }
}

/// `$` followed by the two hexadecimal digits of `v`.
fn hex_operand8(v: u8) -> (r: String)
    ensures
        r@ == seq!['$'] + hex_digits(v as nat, 2),
{
    proof {
        reveal_strlit("$");
        lemma_hex_table();
        reveal_with_fuel(hex_digits, 3);
    }
    let mut r = String::from_str("$");
    r.append(HEX_DIGITS[(v / 16) as usize]);
    r.append(HEX_DIGITS[(v % 16) as usize]);
    assert(r@ =~= seq!['$'] + hex_digits(v as nat, 2));
    r
}

/// `$` followed by the four hexadecimal digits of `v`.
fn hex_operand16(v: u16) -> (r: String)
    ensures
        r@ == seq!['$'] + hex_digits(v as nat, 4),
{
    proof {
        reveal_strlit("$");
        lemma_hex_table();
        reveal_with_fuel(hex_digits, 5);
    }
    let mut r = String::from_str("$");
    r.append(HEX_DIGITS[(v / 4096) as usize]);
    r.append(HEX_DIGITS[((v / 256) % 16) as usize]);
    r.append(HEX_DIGITS[((v / 16) % 16) as usize]);
    r.append(HEX_DIGITS[(v % 16) as usize]);
    assert(v as nat / 16 / 16 == v as nat / 256);
    assert(v as nat / 16 / 16 / 16 == v as nat / 4096);
    assert(r@ =~= seq!['$'] + hex_digits(v as nat, 4));
    r
}

/// The assembly text of instruction `opcode` with its immediate operands.
pub fn disassemble(opcode: u8, immediate8: u8, immediate16: u16) -> (r: String)
    ensures
        r@ == disassembly(opcode, immediate8, immediate16),
{
    proof {
        lemma_instruction_bounds(opcode);
        reveal_strlit("$00");
        reveal_strlit("$0000");
        assert("$00"@ =~= seq!['$', '0', '0']);
        assert("$0000"@ =~= seq!['$', '0', '0', '0', '0']);
    }
    if opcode == 0xCB {
        INST_ASM_CB[immediate8 as usize].to_string()
    } else {
        let text = INST_ASM[opcode as usize];
        let size = INST_SIZE[opcode as usize];
        if size == 1 {
            text.to_string()
        } else if size == 2 {
            replace(text, "$00", hex_operand8(immediate8).as_str())
        } else {
            replace(text, "$0000", hex_operand16(immediate16).as_str())
        }
    }
}

} // verus!
