use vstd::prelude::*;

use super::flags::{Flags, FlagsView};

verus! {

/// The 16-bit value that a signed 8-bit offset stands for (sign extension).
pub open spec fn sign_extend(arg: u8) -> u16 {
    if arg < 128 {
        arg as u16
    } else {
        (arg + 0xFF00) as u16
    }
}

/// The 8-bit sum `acc + arg + cin` wrapped around.
pub open spec fn wrap8(v: int) -> u8 {
    (v % 256) as u8
}

/// The 16-bit value `v` wrapped around.
pub open spec fn wrap16(v: int) -> u16 {
    (v % 65536) as u16
}

/// Bit `index` of `acc` is clear.
pub open spec fn bit_clear(acc: u8, index: u8) -> bool {
    acc & (1u8 << index) == 0
}

/// Result of DAA: the accumulator adjusted to binary coded decimal after an addition
/// (N clear) or a subtraction (N set), and the flags that come with it.
pub open spec fn daa_spec(f: FlagsView, acc: u8) -> (FlagsView, u8) {
    if !f.n {
        let high = f.c || acc > 0x99;
        let low = f.h || acc % 16 > 9;
        let adjust = (if high { 0x60int } else { 0 }) + (if low { 0x06int } else { 0 });
        let r = wrap8(acc + adjust);
        (FlagsView { z: r == 0, n: f.n, h: false, c: high }, r)
    } else {
        let adjust = (if f.c { 0x60int } else { 0 }) + (if f.h { 0x06int } else { 0 });
        let r = wrap8(acc - adjust);
        (FlagsView { z: r == 0, n: f.n, h: false, c: f.c }, r)
    }
}

/// The flags and result of `add16_with_s8`.
pub open spec fn add16_with_s8_spec(acc: u16, arg: u8) -> (FlagsView, u16) {
    (
        FlagsView {
            z: false,
            n: false,
            h: acc % 16 + arg % 16 > 15,
            c: acc % 256 + arg > 255,
        },
        wrap16(acc + sign_extend(arg)),
    )
}

/// The flags and result of `add16`.
pub open spec fn add16_spec(f: FlagsView, acc: u16, arg: u16) -> (FlagsView, u16) {
    (
        FlagsView { z: f.z, n: false, h: acc % 4096 + arg % 4096 > 4095, c: acc + arg > 65535 },
        wrap16(acc + arg),
    )
}

/// The flags and result of `add`.
pub open spec fn add_spec(acc: u8, arg: u8) -> (FlagsView, u8) {
    let r = wrap8(acc + arg);
    (FlagsView { z: r == 0, n: false, h: acc % 16 + arg % 16 > 15, c: acc + arg > 255 }, r)
}

/// The flags and result of `sub`.
pub open spec fn sub_spec(acc: u8, arg: u8) -> (FlagsView, u8) {
    let r = wrap8(acc - arg);
    (FlagsView { z: r == 0, n: true, h: acc / 16 < arg / 16, c: acc < arg }, r)
}

/// The flags and result of `adc`.
pub open spec fn adc_spec(f: FlagsView, acc: u8, arg: u8) -> (FlagsView, u8) {
    let cin: int = if f.c { 1 } else { 0 };
    let r = wrap8(acc + arg + cin);
    (
        FlagsView {
            z: r == 0,
            n: false,
            h: acc % 16 + arg % 16 + cin > 15,
            c: acc + arg + cin > 255,
        },
        r,
    )
}

/// The flags and result of `sbc`.
pub open spec fn sbc_spec(f: FlagsView, acc: u8, arg: u8) -> (FlagsView, u8) {
    let cin: int = if f.c { 1 } else { 0 };
    let arg1 = wrap8(arg + cin);
    let r = wrap8(acc - arg1);
    (FlagsView { z: r == 0, n: true, h: acc / 16 < arg1 / 16, c: acc < arg1 }, r)
}

/// The flags and result of `inc`.
pub open spec fn inc_spec(f: FlagsView, acc: u8) -> (FlagsView, u8) {
    (FlagsView { z: acc == 255, n: false, h: acc % 16 == 15, c: f.c }, wrap8(acc + 1))
}

/// The flags and result of `dec`.
pub open spec fn dec_spec(f: FlagsView, acc: u8) -> (FlagsView, u8) {
    (FlagsView { z: acc == 1, n: true, h: acc % 16 == 0, c: f.c }, wrap8(acc - 1))
}

/// The flags and result of `and`.
pub open spec fn and_spec(acc: u8, arg: u8) -> (FlagsView, u8) {
    let r = acc & arg;
    (FlagsView { z: r == 0, n: false, h: true, c: false }, r)
}

/// The flags and result of `or`.
pub open spec fn or_spec(acc: u8, arg: u8) -> (FlagsView, u8) {
    let r = acc | arg;
    (FlagsView { z: r == 0, n: false, h: false, c: false }, r)
}

/// The flags and result of `xor`.
pub open spec fn xor_spec(acc: u8, arg: u8) -> (FlagsView, u8) {
    let r = acc ^ arg;
    (FlagsView { z: r == 0, n: false, h: false, c: false }, r)
}

/// The flags and result of `rlc`.
pub open spec fn rlc_spec(acc: u8) -> (FlagsView, u8) {
    let r = (wrap8(acc * 2) + acc / 128) as u8;
    (FlagsView { z: r == 0, n: false, h: false, c: acc >= 128 }, r)
}

/// The flags and result of `rrc`.
pub open spec fn rrc_spec(acc: u8) -> (FlagsView, u8) {
    let r = (acc / 2 + (acc % 2) * 128) as u8;
    (FlagsView { z: r == 0, n: false, h: false, c: acc % 2 == 1 }, r)
}

/// The flags and result of `rl`.
pub open spec fn rl_spec(f: FlagsView, acc: u8) -> (FlagsView, u8) {
    let r = (wrap8(acc * 2) + (if f.c { 1int } else { 0 })) as u8;
    (FlagsView { z: r == 0, n: false, h: false, c: acc >= 128 }, r)
}

/// The flags and result of `rr`.
pub open spec fn rr_spec(f: FlagsView, acc: u8) -> (FlagsView, u8) {
    let r = (acc / 2 + (if f.c { 128int } else { 0 })) as u8;
    (FlagsView { z: r == 0, n: false, h: false, c: acc % 2 == 1 }, r)
}

/// The flags and result of `sla`.
pub open spec fn sla_spec(acc: u8) -> (FlagsView, u8) {
    let r = wrap8(acc * 2);
    (FlagsView { z: r == 0, n: false, h: false, c: acc >= 128 }, r)
}

/// The flags and result of `sra`.
pub open spec fn sra_spec(acc: u8) -> (FlagsView, u8) {
    let r = ((acc / 128) * 128 + acc / 2) as u8;
    (FlagsView { z: r == 0, n: false, h: false, c: acc % 2 == 1 }, r)
}

/// The flags and result of `srl`.
pub open spec fn srl_spec(acc: u8) -> (FlagsView, u8) {
    let r = acc / 2;
    (FlagsView { z: r == 0, n: false, h: false, c: acc % 2 == 1 }, r)
}

/// The flags and result of `nibble_swap`.
pub open spec fn nibble_swap_spec(acc: u8) -> (FlagsView, u8) {
    let r = ((acc % 16) * 16 + acc / 16) as u8;
    (FlagsView { z: r == 0, n: false, h: false, c: false }, r)
}

/// The flags and result of `complement`.
pub open spec fn complement_spec(f: FlagsView, acc: u8) -> (FlagsView, u8) {
    (FlagsView { z: f.z, n: true, h: true, c: f.c }, (255 - acc) as u8)
}

/// The flags after testing bit `index` of `acc`.
pub open spec fn test_bit_spec(f: FlagsView, acc: u8, index: u8) -> FlagsView {
    FlagsView { z: bit_clear(acc, index), n: false, h: true, c: f.c }
}

/// Adds the sign-extended offset `arg` to `acc` (ADD SP, e / LD HL, SP+e).
///
/// Flags Affected:
/// - Z: Reset
/// - N: Reset
/// - H: Set if carry from bit 3 (low byte of acc plus the unsigned offset byte)
/// - C: Set if carry from bit 7 (low byte of acc plus the unsigned offset byte)
pub fn add16_with_s8(acc: u16, arg: u8) -> (r: (Flags, u16))
    ensures
        (r.0@, r.1) == add16_with_s8_spec(acc, arg),
{
    let half = acc % 16 + arg as u16 % 16 > 15;
    let carry = acc % 256 + arg as u16 > 255;
    let offset: u16 = if arg < 128 {
        arg as u16
    } else {
        arg as u16 + 0xFF00
    };
    let acc = acc.wrapping_add(offset);

    let mut flags = Flags::empty();
    flags.set_half_if(half);
    flags.set_carry_if(carry);

    (flags, acc)
}

/// Add arg to acc
///
/// Flags Affected:
/// - Z: Not Affected
/// - N: Reset
/// - H: Set if carry from bit 11
/// - C: Set if carry from bit 15
pub fn add16(flags: Flags, acc: u16, arg: u16) -> (r: (Flags, u16))
    ensures
        (r.0@, r.1) == add16_spec(flags@, acc, arg),
{
    let mut flags = flags;
    let half = acc % 4096 + arg % 4096 > 4095;
    let sum: u32 = acc as u32 + arg as u32;
    let carry = sum > 65535;
    let acc = (sum % 65536) as u16;

    flags.reset_sub();
    flags.set_half_if(half);
    flags.set_carry_if(carry);

    (flags, acc)
}

/// Increment acc by one
///
/// Flags Affected:
/// - Z: Not affected
/// - N: Not affected
/// - H: Not affected
/// - C: Not affected
pub fn inc16(acc: u16) -> (r: u16)
    ensures
        r == wrap16(acc + 1),
{
    acc.wrapping_add(1)
}

/// Decrement acc by one
///
/// Flags Affected:
/// - Z: Not affected
/// - N: Not affected
/// - H: Not affected
/// - C: Not affected
pub fn dec16(acc: u16) -> (r: u16)
    ensures
        r == wrap16(acc - 1),
{
    acc.wrapping_sub(1)
}

/// Add arg to acc
///
/// Flags Affected:
/// - Z: Set if result is zero
/// - N: Reset
/// - H: Set if carry from bit 3
/// - C: Set if carry from bit 7
pub fn add(acc: u8, arg: u8) -> (r: (Flags, u8))
    ensures
        (r.0@, r.1) == add_spec(acc, arg),
{
    let half = acc % 16 + arg % 16 > 15;
    let sum: u16 = acc as u16 + arg as u16;
    let carry = sum > 255;
    let acc = (sum % 256) as u8;

    let mut flags = Flags::empty();
    flags.set_zero_if(acc == 0);
    flags.set_half_if(half);
    flags.set_carry_if(carry);

    (flags, acc)
}

/// Subtract arg from acc
///
/// Flags Affected:
/// - Z: Set if result is zero
/// - N: Set
/// - H: Set if the upper nibble of arg exceeds that of acc
/// - C: Set if borrow
pub fn sub(acc: u8, arg: u8) -> (r: (Flags, u8))
    ensures
        (r.0@, r.1) == sub_spec(acc, arg),
{
    let half = acc / 16 < arg / 16;
    let carry = acc < arg;
    let acc = acc.wrapping_sub(arg);

    let mut flags = Flags::empty();
    flags.set_sub();
    flags.set_zero_if(acc == 0);
    flags.set_half_if(half);
    flags.set_carry_if(carry);

    (flags, acc)
}

/// Add (arg + carry) to acc
///
/// Flags Affected:
/// - Z: Set if result is zero
/// - N: Reset
/// - H: Set if carry from bit 3
/// - C: Set if carry from bit 7
pub fn adc(flags: Flags, acc: u8, arg: u8) -> (r: (Flags, u8))
    ensures
        (r.0@, r.1) == adc_spec(flags@, acc, arg),
{
    let mut flags = flags;
    if !flags.carry() {
        return self::add(acc, arg);
    }
    let half = acc % 16 + arg % 16 + 1 > 15;
    let sum: u16 = acc as u16 + arg as u16 + 1;
    let carry = sum > 255;
    let acc = (sum % 256) as u8;

    flags.set_zero_if(acc == 0);
    flags.reset_sub();
    flags.set_half_if(half);
    flags.set_carry_if(carry);

    (flags, acc)
}

/// Subtract (arg + carry) from acc
///
/// Flags Affected:
/// - Z: Set if result is zero
/// - N: Set
/// - H: Set if the upper nibble of (arg + carry) exceeds that of acc
/// - C: Set if borrow
#[verifier::spinoff_prover]
#[verifier::rlimit(30)]
pub fn sbc(flags: Flags, acc: u8, arg: u8) -> (r: (Flags, u8))
    ensures
        (r.0@, r.1) == sbc_spec(flags@, acc, arg),
{
    let mut flags = flags;
    if !flags.carry() {
        return self::sub(acc, arg);
    }
    let ghost arg0 = arg;
    let arg = arg.wrapping_add(1);
    assert(arg == wrap8(arg0 + 1));
    let half = acc / 16 < arg / 16;
    let carry = acc < arg;
    let acc = acc.wrapping_sub(arg);

    flags.set_zero_if(acc == 0);
    flags.set_sub();
    flags.set_half_if(half);
    flags.set_carry_if(carry);

    (flags, acc)
}

/// Increment acc by one
///
/// Flags Affected:
/// - Z: Set if result is zero
/// - N: Reset
/// - H: Set if carry from bit 3
/// - C: Not affected
pub fn inc(flags: Flags, acc: u8) -> (r: (Flags, u8))
    ensures
        (r.0@, r.1) == inc_spec(flags@, acc),
{
    let mut flags = flags;
    flags.set_zero_if(acc == 0xff);
    flags.reset_sub();
    flags.set_half_if(acc % 16 == 0xf);

    let acc = acc.wrapping_add(1);

    (flags, acc)
}

/// Decrement acc by one
///
/// Flags Affected:
/// - Z: Set if result is zero
/// - N: Set
/// - H: Set if the lower nibble of acc is zero (borrow from bit 4)
/// - C: Not affected
pub fn dec(flags: Flags, acc: u8) -> (r: (Flags, u8))
    ensures
        (r.0@, r.1) == dec_spec(flags@, acc),
{
    let mut flags = flags;
    flags.set_zero_if(acc == 1);
    flags.set_sub();
    flags.set_half_if(acc % 16 == 0);

    let acc = acc.wrapping_sub(1);

    (flags, acc)
}

/// Logical AND of acc with arg
///
/// Flags Affected:
/// - Z: Set if result is zero
/// - N: Reset
/// - H: Set
/// - C: Reset
pub fn and(acc: u8, arg: u8) -> (r: (Flags, u8))
    ensures
        (r.0@, r.1) == and_spec(acc, arg),
{
    let acc = acc & arg;

    let mut flags = Flags::empty();
    flags.set_half();
    flags.set_zero_if(acc == 0);

    (flags, acc)
}

/// Logical OR of acc with arg
///
/// Flags Affected:
/// - Z: Set if result is zero
/// - N: Reset
/// - H: Reset
/// - C: Reset
pub fn or(acc: u8, arg: u8) -> (r: (Flags, u8))
    ensures
        (r.0@, r.1) == or_spec(acc, arg),
{
    let acc = acc | arg;

    let mut flags = Flags::empty();
    flags.set_zero_if(acc == 0);

    (flags, acc)
}

/// Logical eXclusive OR (XOR) of acc with arg
///
/// Flags Affected:
/// - Z: Set if result is zero
/// - N: Reset
/// - H: Reset
/// - C: Reset
pub fn xor(acc: u8, arg: u8) -> (r: (Flags, u8))
    ensures
        (r.0@, r.1) == xor_spec(acc, arg),
{
    let acc = acc ^ arg;

    let mut flags = Flags::empty();
    flags.set_zero_if(acc == 0);

    (flags, acc)
}

/// Rotates acc to the left with bit 7 being moved to bit 0 and also stored into the carry.
///
/// Flags Affected:
/// - Z - Set if result is zero
/// - N - Reset
/// - H - Reset
/// - C - Contains old bit 7
pub fn rlc(acc: u8) -> (r: (Flags, u8))
    ensures
        (r.0@, r.1) == rlc_spec(acc),
{
    let carry = acc >= 128;
    let acc = ((acc as u16 * 2) % 256) as u8 + acc / 128;

    let mut flags = Flags::empty();
    flags.set_zero_if(acc == 0);
    flags.set_carry_if(carry);

    (flags, acc)
}

/// Rotates acc to the right with bit 0 moved to bit 7 and also stored into the carry.
///
/// Flags Affected:
/// - Z: Set if result is zero
/// - N: Reset
/// - H: Reset
/// - C: Contains old bit 0
pub fn rrc(acc: u8) -> (r: (Flags, u8))
    ensures
        (r.0@, r.1) == rrc_spec(acc),
{
    let carry = acc % 2 == 1;
    let acc = acc / 2 + (acc % 2) * 128;

    let mut flags = Flags::empty();
    flags.set_zero_if(acc == 0);
    flags.set_carry_if(carry);

    (flags, acc)
}

/// Rotates acc to the left with the carry's value put into bit 0 and bit 7 is put into the carry.
///
/// Flags Affected:
/// - Z: Set if result is zero
/// - N: Reset
/// - H: Reset
/// - C: Contains old bit 7
pub fn rl(flags: Flags, acc: u8) -> (r: (Flags, u8))
    ensures
        (r.0@, r.1) == rl_spec(flags@, acc),
{
    let mut flags = flags;
    let carry = acc >= 128;
    let acc = ((acc as u16 * 2) % 256) as u8 + if flags.carry() { 1 } else { 0 };

    flags.set_zero_if(acc == 0);
    flags.reset_sub();
    flags.reset_half();
    flags.set_carry_if(carry);

    (flags, acc)
}

/// Rotates acc to the right with the carry put in bit 7 and bit 0 put into the carry.
///
/// Flags Affected:
/// - Z: Set if result is zero
/// - N: Reset
/// - H: Reset
/// - C: Contains old bit 0
pub fn rr(flags: Flags, acc: u8) -> (r: (Flags, u8))
    ensures
        (r.0@, r.1) == rr_spec(flags@, acc),
{
    let mut flags = flags;
    let carry = acc % 2 == 1;
    let acc = acc / 2 + if flags.carry() { 128 } else { 0 };

    flags.set_zero_if(acc == 0);
    flags.reset_sub();
    flags.reset_half();
    flags.set_carry_if(carry);

    (flags, acc)
}

/// Shift acc to the left with bit 0 set to 0 and bit 7 into the carry.
///
/// Flags Affected:
/// - Z: Set if result is zero
/// - N: Reset
/// - H: Reset
/// - C: Contains old bit 7
pub fn sla(acc: u8) -> (r: (Flags, u8))
    ensures
        (r.0@, r.1) == sla_spec(acc),
{
    let carry = acc >= 128;
    let acc = ((acc as u16 * 2) % 256) as u8;

    let mut flags = Flags::empty();
    flags.set_zero_if(acc == 0);
    flags.set_carry_if(carry);

    (flags, acc)
}

/// Shift acc to the right without changing bit 7 and put bit 0 into the carry.
///
/// Flags Affected:
/// - Z: Set if result is zero
/// - N: Reset
/// - H: Reset
/// - C: Contains old bit 0
pub fn sra(acc: u8) -> (r: (Flags, u8))
    ensures
        (r.0@, r.1) == sra_spec(acc),
{
    let carry = acc % 2 == 1;
    let acc = (acc / 128) * 128 + acc / 2;

    let mut flags = Flags::empty();
    flags.set_zero_if(acc == 0);
    flags.set_carry_if(carry);

    (flags, acc)
}

/// Shift acc to the right with 0 put in bit 7 and put bit 0 into the carry.
///
/// Flags Affected:
/// - Z: Set if result is zero
/// - N: Reset
/// - H: Reset
/// - C: Contains old bit 0
pub fn srl(acc: u8) -> (r: (Flags, u8))
    ensures
        (r.0@, r.1) == srl_spec(acc),
{
    let carry = acc % 2 == 1;
    let acc = acc / 2;

    let mut flags = Flags::empty();
    flags.set_zero_if(acc == 0);
    flags.set_carry_if(carry);

    (flags, acc)
}

/// Swap upper and lower nibbles of acc
///
/// Flags Affected:
/// - Z: Set if result is zero
/// - N: Reset
/// - H: Reset
/// - C: Reset
pub fn nibble_swap(acc: u8) -> (r: (Flags, u8))
    ensures
        (r.0@, r.1) == nibble_swap_spec(acc),
{
    let acc = (acc % 16) * 16 + acc / 16;

    let mut flags = Flags::empty();
    flags.set_zero_if(acc == 0);

    (flags, acc)
}

/// Complement acc [Flip all bits]
///
/// Flags Affected:
/// - Z: Not affected
/// - N: Set
/// - H: Set
/// - C: Not affected
pub fn complement(flags: Flags, acc: u8) -> (r: (Flags, u8))
    ensures
        (r.0@, r.1) == complement_spec(flags@, acc),
{
    let mut flags = flags;
    let acc = 255 - acc;

    flags.set_sub();
    flags.set_half();

    (flags, acc)
}

/// Test bit
///
/// Flags Affected:
/// - Z: Set if bit b of register r is 0
/// - N: Reset
/// - H: Set
/// - C: Not affected
pub fn test_bit(flags: Flags, acc: u8, bit_index: u8) -> (r: Flags)
    requires
        bit_index < 8,
    ensures
        r@ == test_bit_spec(flags@, acc, bit_index),
{
    let mut flags = flags;
    flags.set_zero_if(acc & (1u8 << bit_index) == 0);
    flags.reset_sub();
    flags.set_half();

    flags
}

/// Set bit to 1
///
/// Flags Affected: NONE
pub fn set_bit(acc: u8, bit_index: u8) -> (r: u8)
    requires
        bit_index < 8,
    ensures
        r == acc | (1u8 << bit_index),
{
    acc | (1u8 << bit_index)
}

/// Reset bit to 0
///
/// Flags Affected: NONE
pub fn reset_bit(acc: u8, bit_index: u8) -> (r: u8)
    requires
        bit_index < 8,
    ensures
        r == acc & !(1u8 << bit_index),
{
    acc & !(1u8 << bit_index)
}

/// Decimal Adjust acc to obtain the bcd representation
///
/// - Z: Set if register acc is zero.
/// - N: Not affected.
/// - H: Reset.
/// - C: Set or reset according to operation.
pub fn daa(flags: Flags, acc: u8) -> (r: (Flags, u8))
    ensures
        (r.0@, r.1) == daa_spec(flags@, acc),
{
    let mut flags = flags;
    let ghost a0 = acc;
    let ghost f0 = flags@;
    let mut acc = acc;
    if !flags.sub() {
        // after an addition, adjust if (half-)carry occurred or if result is out of bounds
        let high = flags.carry() || acc > 0x99;
        if high {
            acc = acc.wrapping_add(0x60);
            flags.set_carry();
        }
        assert(acc % 16 == a0 % 16);
        assert(acc == wrap8(a0 + if high { 0x60int } else { 0 }));
        if flags.half() || acc % 16 > 0x09 {
            acc = acc.wrapping_add(0x06);
        }
        assert(flags@.h == f0.h);
    } else {
        // after a subtraction, only adjust if (half-)carry occurred
        if flags.carry() {
            acc = acc.wrapping_sub(0x60);
        }
        if flags.half() {
            acc = acc.wrapping_sub(0x06);
        }
    }
    flags.set_zero_if(acc == 0);
    flags.reset_half();

    (flags, acc)
}

/// Subtracting what was added gives the accumulator back, and so does adding what was
/// subtracted (both modulo 256).
#[verifier::spinoff_prover]
pub proof fn lemma_add_sub_inverse(acc: u8, arg: u8)
    ensures
        sub_spec(add_spec(acc, arg).1, arg).1 == acc,
        add_spec(sub_spec(acc, arg).1, arg).1 == acc,
{
    let s = add_spec(acc, arg).1;
    let d = sub_spec(acc, arg).1;
    assert(s == if acc + arg < 256 { acc + arg } else { acc + arg - 256 });
    assert(d == if acc >= arg { acc - arg } else { acc - arg + 256 });
}

/// A decrement undoes an increment and an increment undoes a decrement; neither touches the
/// carry.
pub proof fn lemma_inc_dec_inverse(f: FlagsView, acc: u8)
    ensures
        dec_spec(inc_spec(f, acc).0, inc_spec(f, acc).1).1 == acc,
        inc_spec(dec_spec(f, acc).0, dec_spec(f, acc).1).1 == acc,
        inc_spec(f, acc).0.c == f.c,
        dec_spec(f, acc).0.c == f.c,
{
}

/// A rotation right undoes a rotation left and the other way round, for the circular
/// rotations and for the rotations through the carry (which give the carry back too).
pub proof fn lemma_rotate_inverse(f: FlagsView, acc: u8)
    ensures
        rrc_spec(rlc_spec(acc).1).1 == acc,
        rlc_spec(rrc_spec(acc).1).1 == acc,
        rr_spec(rl_spec(f, acc).0, rl_spec(f, acc).1).1 == acc,
        rr_spec(rl_spec(f, acc).0, rl_spec(f, acc).1).0.c == f.c,
        rl_spec(rr_spec(f, acc).0, rr_spec(f, acc).1).1 == acc,
        rl_spec(rr_spec(f, acc).0, rr_spec(f, acc).1).0.c == f.c,
{
}

/// Swapping the nibbles twice, or complementing twice, gives the accumulator back.
pub proof fn lemma_swap_complement_involutive(f: FlagsView, acc: u8)
    ensures
        nibble_swap_spec(nibble_swap_spec(acc).1).1 == acc,
        complement_spec(complement_spec(f, acc).0, complement_spec(f, acc).1).1 == acc,
{
}

/// After SET b the bit tests as set; after RES b it tests as clear; the other bits stay.
pub proof fn lemma_set_reset_test(f: FlagsView, acc: u8, index: u8)
    requires
        index < 8,
    ensures
        !test_bit_spec(f, acc | (1u8 << index), index).z,
        test_bit_spec(f, acc & !(1u8 << index), index).z,
        forall|j: u8|
            j < 8 && j != index ==> bit_clear(acc | (1u8 << index), j) == bit_clear(acc, j)
                && bit_clear(acc & !(1u8 << index), j) == bit_clear(acc, j),
{
    assert(forall|a: u8, i: u8| i < 8 ==> #[trigger] ((a | (1u8 << i)) & (1u8 << i)) != 0)
        by (bit_vector);
    assert(forall|a: u8, i: u8| i < 8 ==> #[trigger] ((a & !(1u8 << i)) & (1u8 << i)) == 0)
        by (bit_vector);
    assert(forall|a: u8, i: u8, j: u8|
        i < 8 && j < 8 && j != i ==> ((#[trigger] ((a | (1u8 << i)) & (1u8 << j))) == 0) == ((a & (1u8
            << j)) == 0)) by (bit_vector);
    assert(forall|a: u8, i: u8, j: u8|
        i < 8 && j < 8 && j != i ==> ((#[trigger] ((a & !(1u8 << i)) & (1u8 << j))) == 0) == ((a & (1u8
            << j)) == 0)) by (bit_vector);
}

/// ADD carries exactly when the sum wraps below the accumulator, SUB borrows exactly when the
/// difference wraps above it; both set Z exactly on a zero result, ADD clears N and SUB sets it.
pub proof fn lemma_add_sub_flags(acc: u8, arg: u8)
    ensures
        add_spec(acc, arg).0.c == (add_spec(acc, arg).1 < acc),
        add_spec(acc, arg).0.z == (add_spec(acc, arg).1 == 0),
        !add_spec(acc, arg).0.n,
        sub_spec(acc, arg).0.c == (sub_spec(acc, arg).1 > acc),
        sub_spec(acc, arg).0.z == (acc == arg),
        sub_spec(acc, arg).0.n,
{
}

} // verus!
