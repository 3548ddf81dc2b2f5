use vstd::prelude::*;

verus! {

/// Bit mask of the zero flag (Z).
pub const FLAG_Z: u8 = 0x80;
/// Bit mask of the subtract flag (N).
pub const FLAG_N: u8 = 0x40;
/// Bit mask of the half-carry flag (H).
pub const FLAG_H: u8 = 0x20;
/// Bit mask of the carry flag (C).
pub const FLAG_C: u8 = 0x10;

/// The abstract content of the flag register.
pub struct FlagsView {
    pub z: bool,
    pub n: bool,
    pub h: bool,
    pub c: bool,
}

/// The byte of the flag register with the given flags set and every other bit clear.
pub open spec fn flag_bits(f: FlagsView) -> u8 {
    ((if f.z { 0x80u8 } else { 0u8 }) | (if f.n { 0x40u8 } else { 0u8 })) | ((if f.h { 0x20u8 } else {
        0u8
    }) | (if f.c { 0x10u8 } else { 0u8 }))
}

/// The flags that a byte of the flag register holds: bits 7 to 4 are Z, N, H and C.
pub open spec fn flags_of(v: u8) -> FlagsView {
    FlagsView { z: v & 0x80 != 0, n: v & 0x40 != 0, h: v & 0x20 != 0, c: v & 0x10 != 0 }
}

/// A byte read back from flags is the byte with its lower nibble cleared, and
/// the flags of the byte of some flags are those flags.
pub proof fn lemma_flag_bits_round_trip()
    ensures
        forall|v: u8| #[trigger] flag_bits(flags_of(v)) == v & 0xF0,
        forall|f: FlagsView| #[trigger] flags_of(flag_bits(f)) == f,
{
    assert forall|v: u8| #[trigger] flag_bits(flags_of(v)) == v & 0xF0 by {
        lemma_bits_of_byte(v);
    }
    assert forall|f: FlagsView| #[trigger] flags_of(flag_bits(f)) == f by {
        lemma_byte_of_bits(f.z, f.n, f.h, f.c);
    }
}

proof fn lemma_bits_of_byte(v: u8)
    by (bit_vector)
    ensures
        ((if v & 0x80 != 0 { 0x80u8 } else { 0u8 }) | (if v & 0x40 != 0 { 0x40u8 } else { 0u8 }))
            | ((if v & 0x20 != 0 { 0x20u8 } else { 0u8 }) | (if v & 0x10 != 0 { 0x10u8 } else {
            0u8
        })) == v & 0xF0,
{
}

proof fn lemma_byte_of_bits(z: bool, n: bool, h: bool, c: bool)
    by (bit_vector)
    ensures
        ({
            let v = ((if z { 0x80u8 } else { 0u8 }) | (if n { 0x40u8 } else { 0u8 })) | ((if h {
                0x20u8
            } else {
                0u8
            }) | (if c { 0x10u8 } else { 0u8 }));
            &&& (v & 0x80 != 0) == z
            &&& (v & 0x40 != 0) == n
            &&& (v & 0x20 != 0) == h
            &&& (v & 0x10 != 0) == c
        }),
{
}

/// The CPU flag register F: zero (bit 7), subtract (bit 6), half carry (bit 5) and
/// carry (bit 4); the lower nibble reads as zero.
#[derive(Clone, Copy, Debug, PartialEq, Eq, Structural)]
pub struct Flags {
    z: bool,
    n: bool,
    h: bool,
    c: bool,
}

impl View for Flags {
    type V = FlagsView;

    closed spec fn view(&self) -> FlagsView {
        FlagsView { z: self.z, n: self.n, h: self.h, c: self.c }
    }
}

impl Default for Flags {
    fn default() -> (r: Flags)
        ensures
            r@ == (FlagsView { z: false, n: false, h: false, c: false }),
    {
        Flags { z: false, n: false, h: false, c: false }
    }
}

impl From<u8> for Flags {
    /// Keeps the four flag bits of `value` and drops the lower nibble.
    fn from(value: u8) -> (r: Flags)
        ensures
            r@ == flags_of(value),
    {
        Flags { z: value & 0x80 != 0, n: value & 0x40 != 0, h: value & 0x20 != 0, c: value & 0x10 != 0 }
    }
}

impl vstd::std_specs::convert::FromSpecImpl<u8> for Flags {
    open spec fn obeys_from_spec() -> bool {
        true
    }

    closed spec fn from_spec(v: u8) -> Flags {
        Flags { z: v & 0x80 != 0, n: v & 0x40 != 0, h: v & 0x20 != 0, c: v & 0x10 != 0 }
    }
}

impl From<Flags> for u8 {
    fn from(value: Flags) -> (r: u8)
        ensures
            r == flag_bits(value@),
    {
        value.bits()
    }
}

impl vstd::std_specs::convert::FromSpecImpl<Flags> for u8 {
    open spec fn obeys_from_spec() -> bool {
        true
    }

    open spec fn from_spec(v: Flags) -> u8 {
        flag_bits(v@)
    }
}

impl Flags {
    /// No flag set.
    pub fn empty() -> (r: Flags)
        ensures
            r@ == (FlagsView { z: false, n: false, h: false, c: false }),
    {
        Flags { z: false, n: false, h: false, c: false }
    }

    /// Flags built from four booleans.
    pub fn with(z: bool, n: bool, h: bool, c: bool) -> (r: Flags)
        ensures
            r@ == (FlagsView { z, n, h, c }),
    {
        Flags { z, n, h, c }
    }

    /// The byte of the flag register.
    pub fn bits(self) -> (r: u8)
        ensures
            r == flag_bits(self@),
    {
        (if self.z { 0x80u8 } else { 0u8 } | if self.n { 0x40u8 } else { 0u8 }) | (if self.h {
            0x20u8
        } else {
            0u8
        } | if self.c { 0x10u8 } else { 0u8 })
    }

    pub fn carry(self) -> (r: bool)
        ensures
            r == self@.c,
    {
        self.c
    }

    pub fn half(self) -> (r: bool)
        ensures
            r == self@.h,
    {
        self.h
    }

    pub fn sub(self) -> (r: bool)
        ensures
            r == self@.n,
    {
        self.n
    }

    pub fn zero(self) -> (r: bool)
        ensures
            r == self@.z,
    {
        self.z
    }

    pub fn set_carry(&mut self)
        ensures
            final(self)@ == (FlagsView { c: true, ..old(self)@ }),
    {
        self.c = true;
    }

    pub fn set_half(&mut self)
        ensures
            final(self)@ == (FlagsView { h: true, ..old(self)@ }),
    {
        self.h = true;
    }

    pub fn set_sub(&mut self)
        ensures
            final(self)@ == (FlagsView { n: true, ..old(self)@ }),
    {
        self.n = true;
    }

    pub fn set_zero(&mut self)
        ensures
            final(self)@ == (FlagsView { z: true, ..old(self)@ }),
    {
        self.z = true;
    }

    pub fn reset_carry(&mut self)
        ensures
            final(self)@ == (FlagsView { c: false, ..old(self)@ }),
    {
        self.c = false;
    }

    pub fn reset_half(&mut self)
        ensures
            final(self)@ == (FlagsView { h: false, ..old(self)@ }),
    {
        self.h = false;
    }

    pub fn reset_sub(&mut self)
        ensures
            final(self)@ == (FlagsView { n: false, ..old(self)@ }),
    {
        self.n = false;
    }

    pub fn reset_zero(&mut self)
        ensures
            final(self)@ == (FlagsView { z: false, ..old(self)@ }),
    {
        self.z = false;
    }

    pub fn set_carry_if(&mut self, cond: bool)
        ensures
            final(self)@ == (FlagsView { c: cond, ..old(self)@ }),
    {
        if cond {
            self.set_carry()
        } else {
            self.reset_carry()
        };
    }

    pub fn set_half_if(&mut self, cond: bool)
        ensures
            final(self)@ == (FlagsView { h: cond, ..old(self)@ }),
    {
        if cond {
            self.set_half()
        } else {
            self.reset_half()
        };
    }

    pub fn set_sub_if(&mut self, cond: bool)
        ensures
            final(self)@ == (FlagsView { n: cond, ..old(self)@ }),
    {
        if cond {
            self.set_sub()
        } else {
            self.reset_sub()
        };
    }

    pub fn set_zero_if(&mut self, cond: bool)
        ensures
            final(self)@ == (FlagsView { z: cond, ..old(self)@ }),
    {
        if cond {
            self.set_zero()
        } else {
            self.reset_zero()
        };
    }

    pub fn toggle_carry(&mut self)
        ensures
            final(self)@ == (FlagsView { c: !old(self)@.c, ..old(self)@ }),
    {
        self.c = !self.c;
    }

    pub fn toggle_half(&mut self)
        ensures
            final(self)@ == (FlagsView { h: !old(self)@.h, ..old(self)@ }),
    {
        self.h = !self.h;
    }

    pub fn toggle_sub(&mut self)
        ensures
            final(self)@ == (FlagsView { n: !old(self)@.n, ..old(self)@ }),
    {
        self.n = !self.n;
    }

    pub fn toggle_zero(&mut self)
        ensures
            final(self)@ == (FlagsView { z: !old(self)@.z, ..old(self)@ }),
    {
        self.z = !self.z;
    }
}

} // verus!
