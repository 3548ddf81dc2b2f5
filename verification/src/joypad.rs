use vstd::prelude::*;

verus! {

/// P1 bit selecting the direction keys onto the input lines (written as 1).
pub const P1_OUT5: u8 = 0b0010_0000;
/// P1 bit selecting the button keys onto the input lines (written as 1).
pub const P1_OUT4: u8 = 0b0001_0000;

pub const KEY_START: u8 = 0b1000_0000;
pub const KEY_SELECT: u8 = 0b0100_0000;
pub const KEY_B: u8 = 0b0010_0000;
pub const KEY_A: u8 = 0b0001_0000;
pub const KEY_DOWN: u8 = 0b0000_1000;
pub const KEY_UP: u8 = 0b0000_0100;
pub const KEY_LEFT: u8 = 0b0000_0010;
pub const KEY_RIGHT: u8 = 0b0000_0001;

/// A set of the eight keys: buttons in the upper nibble (Start, Select, B, A), directions in
/// the lower nibble (Down, Up, Left, Right).
#[derive(Clone, Copy, Debug, PartialEq, Eq, Structural)]
pub struct Keys {
    bits: u8,
}

impl View for Keys {
    type V = u8;

    closed spec fn view(&self) -> u8 {
        self.bits
    }
}

impl From<u8> for Keys {
    fn from(value: u8) -> (r: Keys)
        ensures
            r@ == value,
    {
        Keys { bits: value }
    }
}

impl vstd::std_specs::convert::FromSpecImpl<u8> for Keys {
    open spec fn obeys_from_spec() -> bool {
        true
    }

    closed spec fn from_spec(v: u8) -> Keys {
        Keys { bits: v }
    }
}

impl Keys {
    pub fn empty() -> (r: Keys)
        ensures
            r@ == 0,
    {
        Keys { bits: 0 }
    }

    pub fn bits(self) -> (r: u8)
        ensures
            r == self@,
    {
        self.bits
    }

    pub fn is_empty(self) -> (r: bool)
        ensures
            r == (self@ == 0),
    {
        self.bits == 0
    }

    /// Adds the keys of `other`.
    pub fn insert(&mut self, other: Keys)
        ensures
            final(self)@ == old(self)@ | other@,
    {
        self.bits = self.bits | other.bits;
    }

    /// Removes the keys of `other`.
    pub fn remove(&mut self, other: Keys)
        ensures
            final(self)@ == old(self)@ & !other@,
    {
        self.bits = self.bits & !other.bits;
    }
}

/// The P1 register after writing `p1` while `keys` are held: the two select bits are kept,
/// and the lower nibble reads 0 for each held key of the selected groups (active low).
pub open spec fn p1_register(p1: u8, keys: u8) -> u8 {
    let output = p1 & (P1_OUT4 | P1_OUT5);
    let dpad = keys & 0x0F;
    let btns = keys >> 4;
    let input = (if output & P1_OUT5 == P1_OUT5 { dpad } else { 0 }) | (if output & P1_OUT4
        == P1_OUT4 {
        btns
    } else {
        0
    });
    output | (!input & 0x0F)
}

/// The abstract state of the joypad.
pub struct JoypadView {
    pub p1: u8,
    pub keys: u8,
}

impl JoypadView {
    /// The lower nibble of P1 reflects the held keys of the selected groups.
    pub open spec fn wf(self) -> bool {
        self.p1 == p1_register(self.p1, self.keys)
    }
}

/// Writing P1 twice with the same keys held is writing it once: the select bits are kept
/// and the lower nibble depends only on them and the keys.
pub proof fn lemma_p1_register_idempotent()
    by (bit_vector)
    ensures
        forall|p: u8, a: u8, b: u8| #[trigger] p1_register(p1_register(p, a), b) == p1_register(p, b),
{
}

/// The joypad: the P1 register ($FF00) and the keys held.
#[derive(Debug)]
pub struct Joypad {
    p1: u8,
    keys: Keys,
}

impl Joypad {
    /// The lower nibble of P1 reflects the held keys.
    #[verifier::type_invariant]
    spec fn consistent(self) -> bool {
        self@.wf()
    }
}

impl View for Joypad {
    type V = JoypadView;

    closed spec fn view(&self) -> JoypadView {
        JoypadView { p1: self.p1, keys: self.keys@ }
    }
}

impl Default for Joypad {
    fn default() -> (r: Joypad)
        ensures
            r@.p1 == 0x1F,
            r@.keys == 0,
            r@.wf(),
    {
        assert(p1_register(0x1F, 0) == 0x1F) by (bit_vector);
        Self { p1: 0x1F, keys: Keys::empty() }
    }
}

impl Joypad {
    /// Holds `keys` down.
    pub fn press(&mut self, keys: Keys)
        ensures
            final(self)@.keys == old(self)@.keys | keys@,
            final(self)@.p1 == p1_register(old(self)@.p1, final(self)@.keys),
            final(self)@.wf(),
    {
        proof {
            lemma_p1_register_idempotent();
        }
        let mut held = self.keys;
        held.insert(keys);
        *self = Joypad { p1: p1_register_exec(self.p1, held), keys: held };
    }

    /// Lets `keys` go.
    pub fn release(&mut self, keys: Keys)
        ensures
            final(self)@.keys == old(self)@.keys & !keys@,
            final(self)@.p1 == p1_register(old(self)@.p1, final(self)@.keys),
            final(self)@.wf(),
    {
        proof {
            lemma_p1_register_idempotent();
        }
        let mut held = self.keys;
        held.remove(keys);
        *self = Joypad { p1: p1_register_exec(self.p1, held), keys: held };
    }

    pub fn p1(&self) -> (r: u8)
        ensures
            r == self@.p1,
            self@.wf(),
    {
        proof {
            use_type_invariant(self);
        }
        self.p1
    }

    /// Writes the P1 register: selects the key groups to read.
    pub fn set_p1(&mut self, p1: u8)
        ensures
            final(self)@.p1 == p1_register(p1, old(self)@.keys),
            final(self)@.keys == old(self)@.keys,
            final(self)@.wf(),
    {
        proof {
            lemma_p1_register_idempotent();
        }
        *self = Joypad { p1: p1_register_exec(p1, self.keys), keys: self.keys };
    }
}

/// The P1 register after writing `p1` while `keys` are held.
fn p1_register_exec(p1: u8, keys: Keys) -> (r: u8)
    ensures
        r == p1_register(p1, keys@),
{
    let output = p1 & (P1_OUT4 | P1_OUT5);

    let keys = keys.bits();
    let dpad = keys & 0x0F;
    let btns = keys >> 4;

    let input: u8 = (if output & P1_OUT5 == P1_OUT5 { dpad } else { 0 }) | (if output & P1_OUT4
        == P1_OUT4 {
        btns
    } else {
        0
    });
    let input = !input & 0x0F;

    output | input
}

/// Releasing keys that a press put down (and that were not held before) gives back the
/// joypad as it was: the same keys held and the same P1 register. Every joypad's P1 reflects
/// its held keys (`wf`, the type invariant of `Joypad`, returned by `Joypad::p1`).
pub proof fn lemma_release_undoes_press(j: JoypadView, k: u8)
    requires
        j.wf(),
        j.keys & k == 0,
    ensures
        ({
            let pressed = JoypadView { keys: j.keys | k, p1: p1_register(j.p1, j.keys | k) };
            let released = JoypadView {
                keys: pressed.keys & !k,
                p1: p1_register(pressed.p1, pressed.keys & !k),
            };
            released == j
        }),
{
    let keys = j.keys;
    assert((keys | k) & !k == keys) by (bit_vector)
        requires
            keys & k == 0,
    ;
    lemma_p1_register_idempotent();
}

/// What P1 reads: the two group-select bits written (bit 4 selects the buttons, bit 5 the
/// directions), nothing above them, and in each of bits 3 to 0 a 0 exactly when a held key of
/// a selected group sits there: Start / Down on bit 3, Select / Up on bit 2, B / Left on bit 1,
/// A / Right on bit 0.
pub proof fn lemma_p1_reports_held_keys(p1: u8, keys: u8)
    ensures
        ({
            let r = p1_register(p1, keys);
            let buttons = p1 & 0x10 != 0;
            let directions = p1 & 0x20 != 0;
            &&& r & 0x30 == p1 & 0x30
            &&& r & 0xC0 == 0
            &&& (r & 0x08 == 0) == ((buttons && keys & KEY_START != 0) || (directions && keys
                & KEY_DOWN != 0))
            &&& (r & 0x04 == 0) == ((buttons && keys & KEY_SELECT != 0) || (directions && keys
                & KEY_UP != 0))
            &&& (r & 0x02 == 0) == ((buttons && keys & KEY_B != 0) || (directions && keys
                & KEY_LEFT != 0))
            &&& (r & 0x01 == 0) == ((buttons && keys & KEY_A != 0) || (directions && keys
                & KEY_RIGHT != 0))
        }),
{
    let r = p1_register(p1, keys);
    assert({
        let output = p1 & (0x10u8 | 0x20u8);
        let dpad = keys & 0x0F;
        let btns = keys >> 4;
        let input = (if output & 0x20u8 == 0x20u8 { dpad } else { 0 }) | (if output & 0x10u8
            == 0x10u8 {
            btns
        } else {
            0
        });
        let r = output | (!input & 0x0F);
        let buttons = p1 & 0x10 != 0;
        let directions = p1 & 0x20 != 0;
        &&& r & 0x30 == p1 & 0x30
        &&& r & 0xC0 == 0
        &&& (r & 0x08 == 0) == ((buttons && keys & 0x80 != 0) || (directions && keys & 0x08 != 0))
        &&& (r & 0x04 == 0) == ((buttons && keys & 0x40 != 0) || (directions && keys & 0x04 != 0))
        &&& (r & 0x02 == 0) == ((buttons && keys & 0x20 != 0) || (directions && keys & 0x02 != 0))
        &&& (r & 0x01 == 0) == ((buttons && keys & 0x10 != 0) || (directions && keys & 0x01 != 0))
    }) by (bit_vector);
}

} // verus!
