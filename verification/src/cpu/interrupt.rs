use vstd::prelude::*;

verus! {

/// Bit of the vertical blank interrupt.
pub const INT_VBLANK: u8 = 0x01;
/// Bit of the LCDC status interrupt.
pub const INT_LCDC: u8 = 0x02;
/// Bit of the timer overflow interrupt.
pub const INT_TIMER: u8 = 0x04;
/// Bit of the serial transfer complete interrupt.
pub const INT_SERIAL: u8 = 0x08;
/// Bit of the high-to-low transition of pins P10-P13 (joypad) interrupt.
pub const INT_HL_PIN: u8 = 0x10;

/// Each source bit lies within the five bits that an interrupt set keeps.
pub proof fn lemma_source_bits()
    by (bit_vector)
    ensures
        INT_VBLANK & 0x1F == INT_VBLANK,
        INT_LCDC & 0x1F == INT_LCDC,
        INT_TIMER & 0x1F == INT_TIMER,
        INT_SERIAL & 0x1F == INT_SERIAL,
        INT_HL_PIN & 0x1F == INT_HL_PIN,
{
}

/// Masking to five bits, and the union, intersection and difference of five-bit sets, give
/// five-bit sets.
pub proof fn lemma_five_bits()
    by (bit_vector)
    ensures
        forall|a: u8| #[trigger] (a & 0x1F) < 32,
        forall|a: u8, b: u8| a < 32 && b < 32 ==> #[trigger] (a | b) < 32,
        forall|a: u8, b: u8| a < 32 ==> #[trigger] (a & b) < 32,
{
}

/// A set of the five interrupt sources, as held by the IE and IF registers.
/// Only the lower five bits are ever set.
#[derive(Clone, Copy, Debug, PartialEq, Eq, Structural)]
pub struct Interrupt {
    bits: u8,
}

impl Interrupt {
    /// Only the lower five bits are ever set.
    #[verifier::type_invariant]
    spec fn five_bits(self) -> bool {
        self.bits < 32
    }
}

impl View for Interrupt {
    type V = u8;

    closed spec fn view(&self) -> u8 {
        self.bits
    }
}

impl Default for Interrupt {
    fn default() -> (r: Interrupt)
        ensures
            r@ == 0,
            r@ < 32,
    {
        proof {
            lemma_five_bits();
        }
        Interrupt { bits: 0 }
    }
}

impl From<u8> for Interrupt {
    /// Keeps the five interrupt bits of `value`.
    fn from(value: u8) -> (r: Interrupt)
        ensures
            r@ == value & 0x1F,
            r@ < 32,
    {
        proof {
            lemma_five_bits();
        }
        Interrupt { bits: value & 0x1F }
    }
}

impl vstd::std_specs::convert::FromSpecImpl<u8> for Interrupt {
    open spec fn obeys_from_spec() -> bool {
        true
    }

    closed spec fn from_spec(v: u8) -> Interrupt {
        Interrupt { bits: v & 0x1F }
    }
}

impl From<Interrupt> for u8 {
    fn from(value: Interrupt) -> (r: u8)
        ensures
            r == value@,
    {
        value.bits
    }
}

impl vstd::std_specs::convert::FromSpecImpl<Interrupt> for u8 {
    open spec fn obeys_from_spec() -> bool {
        true
    }

    open spec fn from_spec(v: Interrupt) -> u8 {
        v@
    }
}

impl Interrupt {
    /// The empty set.
    pub fn empty() -> (r: Interrupt)
        ensures
            r@ == 0,
            r@ < 32,
    {
        proof {
            lemma_five_bits();
        }
        Interrupt { bits: 0 }
    }

    /// All five interrupt sources.
    pub fn all() -> (r: Interrupt)
        ensures
            r@ == 0x1F,
            r@ < 32,
    {
        proof {
            lemma_five_bits();
        }
        Interrupt { bits: 0x1F }
    }

    pub fn bits(self) -> (r: u8)
        ensures
            r == self@,
            r < 32,
    {
        proof {
            use_type_invariant(&self);
            lemma_five_bits();
        }
        self.bits
    }

    pub fn is_empty(self) -> (r: bool)
        ensures
            r == (self@ == 0),
    {
        self.bits == 0
    }

    /// Whether every source in `other` is in `self`.
    pub fn contains(self, other: Interrupt) -> (r: bool)
        ensures
            r == (self@ & other@ == other@),
    {
        self.bits & other.bits == other.bits
    }

    /// The sources in both sets.
    pub fn intersection(self, other: Interrupt) -> (r: Interrupt)
        ensures
            r@ == self@ & other@,
            r@ < 32,
    {
        proof {
            use_type_invariant(&self);
            use_type_invariant(&other);
            lemma_five_bits();
        }
        Interrupt { bits: self.bits & other.bits }
    }

    /// The sources in either set.
    pub fn union(self, other: Interrupt) -> (r: Interrupt)
        ensures
            r@ == self@ | other@,
            r@ < 32,
    {
        proof {
            use_type_invariant(&self);
            use_type_invariant(&other);
            lemma_five_bits();
        }
        Interrupt { bits: self.bits | other.bits }
    }

    /// The sources of `self` that are not in `other`.
    pub fn difference(self, other: Interrupt) -> (r: Interrupt)
        ensures
            r@ == self@ & !other@,
            r@ < 32,
    {
        proof {
            use_type_invariant(&self);
            use_type_invariant(&other);
            lemma_five_bits();
        }
        Interrupt { bits: self.bits & !other.bits }
    }

    /// Adds the sources of `other`.
    pub fn insert(&mut self, other: Interrupt)
        ensures
            final(self)@ == old(self)@ | other@,
            final(self)@ < 32,
    {
        proof {
            use_type_invariant(&*self);
            use_type_invariant(&other);
            lemma_five_bits();
        }
        *self = Interrupt { bits: self.bits | other.bits };
    }

    /// Removes the sources of `other`.
    pub fn remove(&mut self, other: Interrupt)
        ensures
            final(self)@ == old(self)@ & !other@,
            final(self)@ < 32,
    {
        proof {
            use_type_invariant(&*self);
            use_type_invariant(&other);
            lemma_five_bits();
        }
        *self = Interrupt { bits: self.bits & !other.bits };
    }

    pub fn vertical_blank(self) -> (r: bool)
        ensures
            r == (self@ & 0x01 != 0),
    {
        self.bits & 0x01 != 0
    }

    pub fn lcdc_status(self) -> (r: bool)
        ensures
            r == (self@ & 0x02 != 0),
    {
        self.bits & 0x02 != 0
    }

    pub fn timer_overflow(self) -> (r: bool)
        ensures
            r == (self@ & 0x04 != 0),
    {
        self.bits & 0x04 != 0
    }

    pub fn serial_transfer_complete(self) -> (r: bool)
        ensures
            r == (self@ & 0x08 != 0),
    {
        self.bits & 0x08 != 0
    }

    pub fn high_to_low_pin10_to_pin_13(self) -> (r: bool)
        ensures
            r == (self@ & 0x10 != 0),
    {
        self.bits & 0x10 != 0
    }

    pub fn set_vertical_blank(&mut self)
        ensures
            final(self)@ == old(self)@ | 0x01,
            final(self)@ < 32,
    {
        proof {
            use_type_invariant(&*self);
            lemma_five_bits();
        }
        *self = Interrupt { bits: self.bits | 0x01 };
    }

    pub fn set_lcdc_status(&mut self)
        ensures
            final(self)@ == old(self)@ | 0x02,
            final(self)@ < 32,
    {
        proof {
            use_type_invariant(&*self);
            lemma_five_bits();
        }
        *self = Interrupt { bits: self.bits | 0x02 };
    }

    pub fn set_timer_overflow(&mut self)
        ensures
            final(self)@ == old(self)@ | 0x04,
            final(self)@ < 32,
    {
        proof {
            use_type_invariant(&*self);
            lemma_five_bits();
        }
        *self = Interrupt { bits: self.bits | 0x04 };
    }

    pub fn set_serial_transfer_complete(&mut self)
        ensures
            final(self)@ == old(self)@ | 0x08,
            final(self)@ < 32,
    {
        proof {
            use_type_invariant(&*self);
            lemma_five_bits();
        }
        *self = Interrupt { bits: self.bits | 0x08 };
    }

    pub fn set_high_to_low_pin10_to_pin_13(&mut self)
        ensures
            final(self)@ == old(self)@ | 0x10,
            final(self)@ < 32,
    {
        proof {
            use_type_invariant(&*self);
            lemma_five_bits();
        }
        *self = Interrupt { bits: self.bits | 0x10 };
    }

    pub fn reset_vertical_blank(&mut self)
        ensures
            final(self)@ == old(self)@ & !0x01u8,
            final(self)@ < 32,
    {
        proof {
            use_type_invariant(&*self);
            lemma_five_bits();
        }
        *self = Interrupt { bits: self.bits & !0x01u8 };
    }

    pub fn reset_lcdc_status(&mut self)
        ensures
            final(self)@ == old(self)@ & !0x02u8,
            final(self)@ < 32,
    {
        proof {
            use_type_invariant(&*self);
            lemma_five_bits();
        }
        *self = Interrupt { bits: self.bits & !0x02u8 };
    }

    pub fn reset_timer_overflow(&mut self)
        ensures
            final(self)@ == old(self)@ & !0x04u8,
            final(self)@ < 32,
    {
        proof {
            use_type_invariant(&*self);
            lemma_five_bits();
        }
        *self = Interrupt { bits: self.bits & !0x04u8 };
    }

    pub fn reset_serial_transfer_complete(&mut self)
        ensures
            final(self)@ == old(self)@ & !0x08u8,
            final(self)@ < 32,
    {
        proof {
            use_type_invariant(&*self);
            lemma_five_bits();
        }
        *self = Interrupt { bits: self.bits & !0x08u8 };
    }

    pub fn reset_high_to_low_pin10_to_pin_13(&mut self)
        ensures
            final(self)@ == old(self)@ & !0x10u8,
            final(self)@ < 32,
    {
        proof {
            use_type_invariant(&*self);
            lemma_five_bits();
        }
        *self = Interrupt { bits: self.bits & !0x10u8 };
    }
}

} // verus!
