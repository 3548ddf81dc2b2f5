use vstd::prelude::*;

use crate::cpu::alu::wrap8;
use crate::cpu::flags::{Flags, FlagsView};

verus! {

// The 8-bit arithmetic and logic operations in the form that takes the flag register
// as input and writes each of the four flags.

/// Add arg to acc
///
/// Flags Affected:
/// - Z: Set if result is zero
/// - N: Reset
/// - H: Set if carry from bit 3
/// - C: Set if carry from bit 7
pub fn add(flags: Flags, acc: u8, arg: u8) -> (r: (Flags, u8))
    ensures
        r.1 == wrap8(acc + arg),
        r.0@ == (FlagsView {
            z: r.1 == 0,
            n: false,
            h: acc % 16 + arg % 16 > 15,
            c: acc + arg > 255,
        }),
{
    let mut flags = flags;
    let half = acc % 16 + arg % 16 > 15;
    let sum: u16 = acc as u16 + arg as u16;
    let carry = sum > 255;
    let acc = (sum % 256) as u8;

    flags.set_zero_if(acc == 0);
    flags.reset_sub();
    flags.set_half_if(half);
    flags.set_carry_if(carry);

    (flags, acc)
}

/// Subtract arg from acc
///
/// Flags Affected:
/// - Z: Set if result is zero
/// - N: Set
/// - H: Set if the upper nibble of arg exceeds that of acc
/// - C: Set if borrow
pub fn sub(flags: Flags, acc: u8, arg: u8) -> (r: (Flags, u8))
    ensures
        r.1 == wrap8(acc - arg),
        r.0@ == (FlagsView { z: r.1 == 0, n: true, h: acc / 16 < arg / 16, c: acc < arg }),
{
    let mut flags = flags;
    let half = acc / 16 < arg / 16;
    let carry = acc < arg;
    let acc = acc.wrapping_sub(arg);

    flags.set_zero_if(acc == 0);
    flags.set_sub();
    flags.set_half_if(half);
    flags.set_carry_if(carry);

    (flags, acc)
}

/// Add (arg + carry) to acc
///
/// Flags Affected:
/// - Z: Set if result is zero
/// - N: Reset
/// - H: Set if carry from bit 3
/// - C: Set if carry from bit 7
pub fn adc(flags: Flags, acc: u8, arg: u8) -> (r: (Flags, u8))
    ensures
        ({
            let cin: int = if flags@.c { 1 } else { 0 };
            &&& r.1 == wrap8(acc + arg + cin)
            &&& r.0@ == (FlagsView {
                z: r.1 == 0,
                n: false,
                h: acc % 16 + arg % 16 + cin > 15,
                c: acc + arg + cin > 255,
            })
        }),
{
    let mut flags = flags;
    if !flags.carry() {
        return self::add(flags, acc, arg);
    }
    let half = acc % 16 + arg % 16 + 1 > 15;
    let sum: u16 = acc as u16 + arg as u16 + 1;
    let carry = sum > 255;
    let acc = (sum % 256) as u8;

    flags.set_zero_if(acc == 0);
    flags.reset_sub();
    flags.set_half_if(half);
    flags.set_carry_if(carry);

    (flags, acc)
}

/// Subtract (arg + carry) from acc
///
/// Flags Affected:
/// - Z: Set if result is zero
/// - N: Set
/// - H: Set if the upper nibble of (arg + carry) exceeds that of acc
/// - C: Set if borrow
pub fn sbc(flags: Flags, acc: u8, arg: u8) -> (r: (Flags, u8))
    ensures
        ({
            let cin: int = if flags@.c { 1 } else { 0 };
            let arg1 = wrap8(arg + cin);
            &&& r.1 == wrap8(acc - arg1)
            &&& r.0@ == (FlagsView { z: r.1 == 0, n: true, h: acc / 16 < arg1 / 16, c: acc < arg1 })
        }),
{
    let mut flags = flags;
    if !flags.carry() {
        return self::sub(flags, acc, arg);
    }
    let arg = arg.wrapping_add(1);
    let half = acc / 16 < arg / 16;
    let carry = acc < arg;
    let acc = acc.wrapping_sub(arg);

    flags.set_zero_if(acc == 0);
    flags.set_sub();
    flags.set_half_if(half);
    flags.set_carry_if(carry);

    (flags, acc)
}

/// Increment acc by one
///
/// Flags Affected:
/// - Z: Set if result is zero
/// - N: Reset
/// - H: Set if carry from bit 3
/// - C: Not affected
pub fn inc(flags: Flags, acc: u8) -> (r: (Flags, u8))
    ensures
        r.1 == wrap8(acc + 1),
        r.0@ == (FlagsView { z: acc == 255, n: false, h: acc % 16 == 15, c: flags@.c }),
{
    let mut flags = flags;
    flags.set_zero_if(acc == 0xff);
    flags.reset_sub();
    flags.set_half_if(acc % 16 == 0xf);

    let acc = acc.wrapping_add(1);

    (flags, acc)
}

/// Decrement acc by one
///
/// Flags Affected:
/// - Z: Set if result is zero
/// - N: Set
/// - H: Set if the lower nibble of acc is zero (borrow from bit 4)
/// - C: Not affected
pub fn dec(flags: Flags, acc: u8) -> (r: (Flags, u8))
    ensures
        r.1 == wrap8(acc - 1),
        r.0@ == (FlagsView { z: acc == 1, n: true, h: acc % 16 == 0, c: flags@.c }),
{
    let mut flags = flags;
    flags.set_zero_if(acc == 1);
    flags.set_sub();
    flags.set_half_if(acc % 16 == 0);

    let acc = acc.wrapping_sub(1);

    (flags, acc)
}

/// Logical AND of acc with arg
///
/// Flags Affected:
/// - Z: Set if result is zero
/// - N: Reset
/// - H: Set
/// - C: Reset
pub fn and(flags: Flags, acc: u8, arg: u8) -> (r: (Flags, u8))
    ensures
        r.1 == acc & arg,
        r.0@ == (FlagsView { z: r.1 == 0, n: false, h: true, c: false }),
{
    let mut flags = flags;
    let acc = acc & arg;

    flags.set_zero_if(acc == 0);
    flags.reset_sub();
    flags.set_half();
    flags.reset_carry();

    (flags, acc)
}

/// Logical OR of acc with arg
///
/// Flags Affected:
/// - Z: Set if result is zero
/// - N: Reset
/// - H: Reset
/// - C: Reset
pub fn or(flags: Flags, acc: u8, arg: u8) -> (r: (Flags, u8))
    ensures
        r.1 == acc | arg,
        r.0@ == (FlagsView { z: r.1 == 0, n: false, h: false, c: false }),
{
    let mut flags = flags;
    let acc = acc | arg;

    flags.set_zero_if(acc == 0);
    flags.reset_sub();
    flags.reset_half();
    flags.reset_carry();

    (flags, acc)
}

/// Logical eXclusive OR (XOR) of acc with arg
///
/// Flags Affected:
/// - Z: Set if result is zero
/// - N: Reset
/// - H: Reset
/// - C: Reset
pub fn xor(flags: Flags, acc: u8, arg: u8) -> (r: (Flags, u8))
    ensures
        r.1 == acc ^ arg,
        r.0@ == (FlagsView { z: r.1 == 0, n: false, h: false, c: false }),
{
    let mut flags = flags;
    let acc = acc ^ arg;

    flags.set_zero_if(acc == 0);
    flags.reset_sub();
    flags.reset_half();
    flags.reset_carry();

    (flags, acc)
}

/// Rotates acc to the left with bit 7 being moved to bit 0 and also stored into the carry.
///
/// Flags Affected:
/// - Z - Set if result is zero
/// - N - Reset
/// - H - Reset
/// - C - Contains old bit 7
pub fn rlc(flags: Flags, acc: u8) -> (r: (Flags, u8))
    ensures
        r.1 == wrap8(acc * 2) + acc / 128,
        r.0@ == (FlagsView { z: r.1 == 0, n: false, h: false, c: acc >= 128 }),
{
    let mut flags = flags;
    let carry = acc >= 128;
    let acc = ((acc as u16 * 2) % 256) as u8 + acc / 128;

    flags.set_zero_if(acc == 0);
    flags.reset_sub();
    flags.reset_half();
    flags.set_carry_if(carry);

    (flags, acc)
}

/// Rotates acc to the right with bit 0 moved to bit 7 and also stored into the carry.
///
/// Flags Affected:
/// - Z: Set if result is zero
/// - N: Reset
/// - H: Reset
/// - C: Contains old bit 0
pub fn rrc(flags: Flags, acc: u8) -> (r: (Flags, u8))
    ensures
        r.1 == acc / 2 + (acc % 2) * 128,
        r.0@ == (FlagsView { z: r.1 == 0, n: false, h: false, c: acc % 2 == 1 }),
{
    let mut flags = flags;
    let carry = acc % 2 == 1;
    let acc = acc / 2 + (acc % 2) * 128;

    flags.set_zero_if(acc == 0);
    flags.reset_sub();
    flags.reset_half();
    flags.set_carry_if(carry);

    (flags, acc)
}

/// Rotates acc to the left with the carry's value put into bit 0 and bit 7 is put into the carry.
///
/// Flags Affected:
/// - Z: Set if result is zero
/// - N: Reset
/// - H: Reset
/// - C: Contains old bit 7
pub fn rl(flags: Flags, acc: u8) -> (r: (Flags, u8))
    ensures
        r.1 == wrap8(acc * 2) + (if flags@.c { 1int } else { 0 }),
        r.0@ == (FlagsView { z: r.1 == 0, n: false, h: false, c: acc >= 128 }),
{
    let mut flags = flags;
    let carry = acc >= 128;
    let acc = ((acc as u16 * 2) % 256) as u8 + if flags.carry() { 1 } else { 0 };

    flags.set_zero_if(acc == 0);
    flags.reset_sub();
    flags.reset_half();
    flags.set_carry_if(carry);

    (flags, acc)
}

/// Rotates acc to the right with the carry put in bit 7 and bit 0 put into the carry.
///
/// Flags Affected:
/// - Z: Set if result is zero
/// - N: Reset
/// - H: Reset
/// - C: Contains old bit 0
pub fn rr(flags: Flags, acc: u8) -> (r: (Flags, u8))
    ensures
        r.1 == acc / 2 + (if flags@.c { 128int } else { 0 }),
        r.0@ == (FlagsView { z: r.1 == 0, n: false, h: false, c: acc % 2 == 1 }),
{
    let mut flags = flags;
    let carry = acc % 2 == 1;
    let acc = acc / 2 + if flags.carry() { 128 } else { 0 };

    flags.set_zero_if(acc == 0);
    flags.reset_sub();
    flags.reset_half();
    flags.set_carry_if(carry);

    (flags, acc)
}

} // verus!
