use vstd::prelude::*;

use super::flags::{flag_bits, flags_of, lemma_flag_bits_round_trip, Flags, FlagsView};
use super::interrupt::Interrupt;

verus! {

/// The abstract content of the register file.
pub struct RegistersView {
    pub a: u8,
    pub f: FlagsView,
    pub b: u8,
    pub c: u8,
    pub d: u8,
    pub e: u8,
    pub h: u8,
    pub l: u8,
    pub sp: u16,
    pub pc: u16,
}

/// The 16-bit register pair made of a high and a low byte.
pub open spec fn pair(hi: u8, lo: u8) -> u16 {
    (hi * 256 + lo) as u16
}

impl RegistersView {
    pub open spec fn af(self) -> u16 {
        pair(self.a, flag_bits(self.f))
    }

    pub open spec fn bc(self) -> u16 {
        pair(self.b, self.c)
    }

    pub open spec fn de(self) -> u16 {
        pair(self.d, self.e)
    }

    pub open spec fn hl(self) -> u16 {
        pair(self.h, self.l)
    }

    pub open spec fn with_bc(self, r: u16) -> RegistersView {
        RegistersView { b: (r / 256) as u8, c: (r % 256) as u8, ..self }
    }

    pub open spec fn with_de(self, r: u16) -> RegistersView {
        RegistersView { d: (r / 256) as u8, e: (r % 256) as u8, ..self }
    }

    pub open spec fn with_hl(self, r: u16) -> RegistersView {
        RegistersView { h: (r / 256) as u8, l: (r % 256) as u8, ..self }
    }

    pub open spec fn with_af(self, r: u16) -> RegistersView {
        RegistersView { a: (r / 256) as u8, f: flags_of((r % 256) as u8), ..self }
    }
}

/// The CPU register file: the 8-bit registers A, F, B, C, D, E, H, L, their 16-bit
/// pairs AF, BC, DE, HL, the stack pointer and the program counter.
#[derive(Clone, Copy, Debug, PartialEq, Eq, Structural)]
pub struct Registers {
    a: u8,
    b: u8,
    c: u8,
    d: u8,
    e: u8,
    h: u8,
    l: u8,
    bc: u16,
    de: u16,
    hl: u16,
    sp: u16,
    pc: u16,
    flags: Flags,
    int_e: Interrupt,
    int_f: Interrupt,
}

impl View for Registers {
    type V = RegistersView;

    closed spec fn view(&self) -> RegistersView {
        RegistersView {
            a: self.a,
            f: self.flags@,
            b: self.b,
            c: self.c,
            d: self.d,
            e: self.e,
            h: self.h,
            l: self.l,
            sp: self.sp,
            pc: self.pc,
        }
    }
}

impl Default for Registers {
    fn default() -> (r: Registers)
        ensures
            r@ == (RegistersView {
                a: 0,
                f: FlagsView { z: false, n: false, h: false, c: false },
                b: 0,
                c: 0,
                d: 0,
                e: 0,
                h: 0,
                l: 0,
                sp: 0,
                pc: 0,
            }),
    {
        Registers {
            a: 0,
            b: 0,
            c: 0,
            d: 0,
            e: 0,
            h: 0,
            l: 0,
            bc: 0,
            de: 0,
            hl: 0,
            sp: 0,
            pc: 0,
            flags: Flags::empty(),
            int_e: Interrupt::empty(),
            int_f: Interrupt::empty(),
        }
    }
}

impl Registers {
    /// Each 16-bit pair field holds the pair of its two 8-bit registers.
    #[verifier::type_invariant]
    spec fn pairs_match(self) -> bool {
        &&& self.bc == pair(self.b, self.c)
        &&& self.de == pair(self.d, self.e)
        &&& self.hl == pair(self.h, self.l)
    }

    pub fn a(&self) -> (r: u8)
        ensures
            r == self@.a,
    {
        self.a
    }

    pub fn f(&self) -> (r: u8)
        ensures
            r == flag_bits(self@.f),
    {
        self.flags.into()
    }

    pub fn b(&self) -> (r: u8)
        ensures
            r == self@.b,
    {
        self.b
    }

    pub fn c(&self) -> (r: u8)
        ensures
            r == self@.c,
    {
        self.c
    }

    pub fn d(&self) -> (r: u8)
        ensures
            r == self@.d,
    {
        self.d
    }

    pub fn e(&self) -> (r: u8)
        ensures
            r == self@.e,
    {
        self.e
    }

    pub fn h(&self) -> (r: u8)
        ensures
            r == self@.h,
    {
        self.h
    }

    pub fn l(&self) -> (r: u8)
        ensures
            r == self@.l,
    {
        self.l
    }

    pub fn af(&self) -> (r: u16)
        ensures
            r == self@.af(),
    {
        join(self.a, self.flags.into())
    }

    pub fn bc(&self) -> (r: u16)
        ensures
            r == self@.bc(),
    {
        proof {
            use_type_invariant(self);
        }
        self.bc
    }

    pub fn de(&self) -> (r: u16)
        ensures
            r == self@.de(),
    {
        proof {
            use_type_invariant(self);
        }
        self.de
    }

    pub fn hl(&self) -> (r: u16)
        ensures
            r == self@.hl(),
    {
        proof {
            use_type_invariant(self);
        }
        self.hl
    }

    pub fn sp(&self) -> (r: u16)
        ensures
            r == self@.sp,
    {
        self.sp
    }

    pub fn pc(&self) -> (r: u16)
        ensures
            r == self@.pc,
    {
        self.pc
    }

    pub fn flags(&self) -> (r: Flags)
        ensures
            r@ == self@.f,
    {
        self.flags
    }

    pub fn set_flags(&mut self, flags: Flags)
        ensures
            final(self)@ == (RegistersView { f: flags@, ..old(self)@ }),
    {
        proof {
            use_type_invariant(&*self);
        }
        self.flags = flags
    }

    pub fn set_a(&mut self, r: u8)
        ensures
            final(self)@ == (RegistersView { a: r, ..old(self)@ }),
    {
        proof {
            use_type_invariant(&*self);
        }
        self.a = r;
    }

    pub fn set_f(&mut self, r: u8)
        ensures
            final(self)@ == (RegistersView { f: flags_of(r), ..old(self)@ }),
    {
        proof {
            use_type_invariant(&*self);
        }
        self.flags = Flags::from(r);
    }

    pub fn set_b(&mut self, r: u8)
        ensures
            final(self)@ == (RegistersView { b: r, ..old(self)@ }),
    {
        proof {
            use_type_invariant(&*self);
        }
        let bc = join(r, self.c);
        *self = Registers { b: r, bc, ..*self };
    }

    pub fn set_c(&mut self, r: u8)
        ensures
            final(self)@ == (RegistersView { c: r, ..old(self)@ }),
    {
        proof {
            use_type_invariant(&*self);
        }
        let bc = join(self.b, r);
        *self = Registers { c: r, bc, ..*self };
    }

    pub fn set_d(&mut self, r: u8)
        ensures
            final(self)@ == (RegistersView { d: r, ..old(self)@ }),
    {
        proof {
            use_type_invariant(&*self);
        }
        let de = join(r, self.e);
        *self = Registers { d: r, de, ..*self };
    }

    pub fn set_e(&mut self, r: u8)
        ensures
            final(self)@ == (RegistersView { e: r, ..old(self)@ }),
    {
        proof {
            use_type_invariant(&*self);
        }
        let de = join(self.d, r);
        *self = Registers { e: r, de, ..*self };
    }

    pub fn set_h(&mut self, r: u8)
        ensures
            final(self)@ == (RegistersView { h: r, ..old(self)@ }),
    {
        proof {
            use_type_invariant(&*self);
        }
        let hl = join(r, self.l);
        *self = Registers { h: r, hl, ..*self };
    }

    pub fn set_l(&mut self, r: u8)
        ensures
            final(self)@ == (RegistersView { l: r, ..old(self)@ }),
    {
        proof {
            use_type_invariant(&*self);
        }
        let hl = join(self.h, r);
        *self = Registers { l: r, hl, ..*self };
    }

    pub fn set_af(&mut self, r: u16)
        ensures
            final(self)@ == old(self)@.with_af(r),
    {
        proof {
            use_type_invariant(&*self);
        }
        let bytes = split(r);
        let (a, f) = (bytes[0], bytes[1]);
        *self = Registers { a, flags: Flags::from(f), ..*self };
    }

    pub fn set_bc(&mut self, r: u16)
        ensures
            final(self)@ == old(self)@.with_bc(r),
    {
        proof {
            use_type_invariant(&*self);
        }
        let bytes = split(r);
        let (b, c) = (bytes[0], bytes[1]);
        *self = Registers { b, c, bc: r, ..*self };
    }

    pub fn set_de(&mut self, r: u16)
        ensures
            final(self)@ == old(self)@.with_de(r),
    {
        proof {
            use_type_invariant(&*self);
        }
        let bytes = split(r);
        let (d, e) = (bytes[0], bytes[1]);
        *self = Registers { d, e, de: r, ..*self };
    }

    pub fn set_hl(&mut self, r: u16)
        ensures
            final(self)@ == old(self)@.with_hl(r),
    {
        proof {
            use_type_invariant(&*self);
        }
        let bytes = split(r);
        let (h, l) = (bytes[0], bytes[1]);
        *self = Registers { h, l, hl: r, ..*self };
    }

    pub fn set_sp(&mut self, r: u16)
        ensures
            final(self)@ == (RegistersView { sp: r, ..old(self)@ }),
    {
        proof {
            use_type_invariant(&*self);
        }
        self.sp = r;
    }

    pub fn set_pc(&mut self, r: u16)
        ensures
            final(self)@ == (RegistersView { pc: r, ..old(self)@ }),
    {
        proof {
            use_type_invariant(&*self);
        }
        self.pc = r;
    }
}

/// The 16-bit value with high byte `h` and low byte `l` (big-endian pair).
pub fn join(h: u8, l: u8) -> (r: u16)
    ensures
        r == pair(h, l),
{
    h as u16 * 256 + l as u16
}

/// The high and the low byte of `r`.
pub fn split(r: u16) -> (p: [u8; 2])
    ensures
        p[0] == r / 256,
        p[1] == r % 256,
        pair(p[0], p[1]) == r,
{
    [(r / 256) as u8, (r % 256) as u8]
}

/// Joining two bytes and splitting the pair gives the bytes back; splitting a value and
/// joining its bytes gives the value back.
pub proof fn lemma_join_split(h: u8, l: u8, r: u16)
    ensures
        pair(h, l) / 256 == h,
        pair(h, l) % 256 == l,
        pair((r / 256) as u8, (r % 256) as u8) == r,
{
}

/// A register pair reads back what was written to it, and writing it leaves the other
/// registers alone; AF keeps only the four flag bits of its low byte.
pub proof fn lemma_pair_write_read(r: RegistersView, v: u16)
    ensures
        r.with_bc(v).bc() == v,
        r.with_de(v).de() == v,
        r.with_hl(v).hl() == v,
        r.with_af(v).af() == v - v % 16,
        r.with_bc(v).de() == r.de() && r.with_bc(v).hl() == r.hl() && r.with_bc(v).af() == r.af(),
        r.with_de(v).bc() == r.bc() && r.with_de(v).hl() == r.hl() && r.with_de(v).af() == r.af(),
        r.with_hl(v).bc() == r.bc() && r.with_hl(v).de() == r.de() && r.with_hl(v).af() == r.af(),
        r.with_af(v).bc() == r.bc() && r.with_af(v).de() == r.de() && r.with_af(v).hl() == r.hl(),
{
    lemma_flag_bits_round_trip();
    let lo = (v % 256) as u8;
    assert(lo & 0xF0 == lo - lo % 16) by (bit_vector);
}

} // verus!
