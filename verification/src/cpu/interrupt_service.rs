use vstd::prelude::*;

use super::interrupt::{lemma_source_bits, Interrupt, INT_HL_PIN, INT_LCDC, INT_SERIAL, INT_TIMER, INT_VBLANK};

verus! {

/// The source that the interrupt service routine takes from the pending set `irq`, by
/// priority: vertical blank, LCDC status, timer, serial, joypad; with its restart address.
pub open spec fn service_target(irq: u8) -> Option<(u8, u16)> {
    if irq & INT_VBLANK == INT_VBLANK {
        Some((INT_VBLANK, 0x40u16))
    } else if irq & INT_LCDC == INT_LCDC {
        Some((INT_LCDC, 0x48u16))
    } else if irq & INT_TIMER == INT_TIMER {
        Some((INT_TIMER, 0x50u16))
    } else if irq & INT_SERIAL == INT_SERIAL {
        Some((INT_SERIAL, 0x58u16))
    } else if irq & INT_HL_PIN == INT_HL_PIN {
        Some((INT_HL_PIN, 0x60u16))
    } else {
        None
    }
}

/// The abstract state of the interrupt controller.
pub struct IntView {
    pub enabled: bool,
    pub enable_requested: bool,
    pub disable_requested: bool,
    /// IE
    pub ie: u8,
    /// IF
    pub iflag: u8,
}

/// The controller at the start of a cycle: the EI / DI requests of the previous
/// instruction take effect.
pub open spec fn preamble_spec(i: IntView) -> IntView {
    IntView {
        enabled: if i.disable_requested {
            false
        } else if i.enable_requested {
            true
        } else {
            i.enabled
        },
        enable_requested: false,
        disable_requested: false,
        ..i
    }
}

/// The controller after the interrupt service routine and the restart address it jumps to.
pub open spec fn isr_spec(i: IntView) -> (IntView, Option<u16>) {
    let irq = (i.ie & i.iflag) as u8;
    if i.enabled && service_target(irq) is Some {
        let (mask, addr) = service_target(irq)->0;
        (IntView { enabled: false, iflag: i.iflag & !mask, ..i }, Some(addr))
    } else {
        (i, None)
    }
}

/// The service routine takes the pending source of highest priority, clears its latch and
/// turns the master switch off, so an interrupt is never serviced inside another: a second
/// service right after it services nothing.
pub proof fn lemma_service_not_nested(i: IntView)
    ensures
        isr_spec(isr_spec(i).0).1 is None,
        isr_spec(i).1 is Some ==> !isr_spec(i).0.enabled && isr_spec(i).0.ie == i.ie,
        isr_spec(i).1 is None ==> isr_spec(i).0 == i,
{
}

/// EI and DI take effect at the start of the next cycle, not during their own: the cycle's
/// first step turns a pending EI into an enabled master switch and a pending DI (which wins
/// over EI) into a disabled one, and leaves no request pending.
pub proof fn lemma_ei_di_take_effect_next_cycle(i: IntView)
    ensures
        !i.disable_requested && i.enable_requested ==> preamble_spec(i).enabled,
        i.disable_requested ==> !preamble_spec(i).enabled,
        !i.disable_requested && !i.enable_requested ==> preamble_spec(i).enabled == i.enabled,
        !preamble_spec(i).enable_requested && !preamble_spec(i).disable_requested,
        preamble_spec(i).ie == i.ie && preamble_spec(i).iflag == i.iflag,
{
}

/// The bit of interrupt source number `j` (0 vertical blank, 1 LCDC status, 2 timer,
/// 3 serial, 4 joypad).
pub open spec fn source_bit(j: int) -> u8 {
    if j == 0 {
        1
    } else if j == 1 {
        2
    } else if j == 2 {
        4
    } else if j == 3 {
        8
    } else {
        16
    }
}

/// With the master switch on, the service routine takes the pending source (enabled in IE
/// and latched in IF) of the lowest number j, clears only its latch, turns the master switch
/// off and jumps to $40 + 8 * j; with nothing pending, or the switch off, it changes nothing.
pub proof fn lemma_service_priority(i: IntView, j: int)
    requires
        0 <= j < 5,
    ensures
        ({
            let pending = i.ie & i.iflag;
            let bit = source_bit(j);
            let lowest = pending & bit != 0 && pending & ((bit - 1) as u8) == 0;
            let (o, target) = isr_spec(i);
            (i.enabled && lowest) ==> (target == Some((0x40 + 8 * j) as u16) && o.iflag == i.iflag
                & !bit && !o.enabled && o.ie == i.ie)
        }),
        (!i.enabled || (i.ie & i.iflag) & 0x1F == 0) ==> isr_spec(i) == (i, None::<u16>),
{
    let p = i.ie & i.iflag;
    assert(INT_VBLANK == 1 && INT_LCDC == 2 && INT_TIMER == 4 && INT_SERIAL == 8 && INT_HL_PIN
        == 16);
    assert((p & 1 != 0 ==> p & 1 == 1) && (p & 2 != 0 ==> p & 2 == 2) && (p & 4 != 0 ==> p & 4
        == 4) && (p & 8 != 0 ==> p & 8 == 8) && (p & 16 != 0 ==> p & 16 == 16) && (p & 1 == 0
        ==> p & 1 != 1) && (p & 3 == 0 ==> p & 1 != 1 && p & 2 != 2) && (p & 7 == 0 ==> p & 1
        != 1 && p & 2 != 2 && p & 4 != 4) && (p & 15 == 0 ==> p & 1 != 1 && p & 2 != 2 && p & 4
        != 4 && p & 8 != 8) && (p & 0x1F == 0 ==> p & 1 != 1 && p & 2 != 2 && p & 4 != 4 && p
        & 8 != 8 && p & 16 != 16)) by (bit_vector);
}

/// The interrupt controller: the master switch (IME), the pending EI / DI requests,
/// the enabled sources (IE, $FFFF) and the latched requests (IF, $FF0F).
#[derive(Clone, Copy, Debug, PartialEq, Eq, Structural)]
pub struct InterruptService {
    /// Master Interrupt Switch
    pub enabled: bool,
    /// Emulate EI instruction behavior
    pub enable_requested: bool,
    /// Emulate DI instruction behavior
    pub disable_requested: bool,
    /// IE register (0xFFFF)
    pub enabled_flags: Interrupt,
    /// IF register (0xFF0F)
    pub latched_flags: Interrupt,
}

impl View for InterruptService {
    type V = IntView;

    open spec fn view(&self) -> IntView {
        IntView {
            enabled: self.enabled,
            enable_requested: self.enable_requested,
            disable_requested: self.disable_requested,
            ie: self.enabled_flags@,
            iflag: self.latched_flags@,
        }
    }
}

impl Default for InterruptService {
    fn default() -> (r: InterruptService)
        ensures
            !r.enabled,
            !r.enable_requested,
            !r.disable_requested,
            r.enabled_flags@ == 0,
            r.latched_flags@ == 0,
    {
        InterruptService {
            enabled: false,
            enable_requested: false,
            disable_requested: false,
            enabled_flags: Interrupt::empty(),
            latched_flags: Interrupt::empty(),
        }
    }
}

impl InterruptService {
    /// The pending requests: latched and enabled.
    pub fn irq(&self) -> (r: Interrupt)
        ensures
            r@ == self.enabled_flags@ & self.latched_flags@,
    {
        self.enabled_flags.intersection(self.latched_flags)
    }

    /// Requests that the master switch be turned on (EI, RETI); it takes effect at the
    /// start of the next cycle.
    pub fn enable_interrupt(&mut self)
        ensures
            *final(self) == (InterruptService { enable_requested: true, ..*old(self) }),
    {
        self.enable_requested = true;
    }

    /// Requests that the master switch be turned off (DI); it takes effect at the start
    /// of the next cycle.
    pub fn disable_interrupt(&mut self)
        ensures
            *final(self) == (InterruptService { disable_requested: true, ..*old(self) }),
    {
        self.disable_requested = true;
    }

    /// Applies the EI / DI requests of the previous instruction to the master switch.
    pub fn interrupt_service_preamble(&mut self)
        ensures
            final(self)@ == preamble_spec(old(self)@),
            final(self).enabled == if old(self).disable_requested {
                false
            } else if old(self).enable_requested {
                true
            } else {
                old(self).enabled
            },
            !final(self).enable_requested,
            !final(self).disable_requested,
            final(self).enabled_flags == old(self).enabled_flags,
            final(self).latched_flags == old(self).latched_flags,
    {
        if self.enable_requested {
            self.enabled = true;
            self.enable_requested = false;
        }
        if self.disable_requested {
            self.enabled = false;
            self.disable_requested = false;
        }
    }

    /// The master switch.
    pub fn enabled(&self) -> (r: bool)
        ensures
            r == self.enabled,
    {
        self.enabled
    }

    /// The IF register.
    pub fn interrupt_latched_flags(&self) -> (r: Interrupt)
        ensures
            r == self.latched_flags,
    {
        self.latched_flags
    }

    /// Reads the IF register.
    pub fn interrupt_latched_register(&self) -> (r: u8)
        ensures
            r == self.latched_flags@,
            r < 32,
    {
        self.latched_flags.bits()
    }

    /// Reads the IE register.
    pub fn interrupt_enabled_register(&self) -> (r: u8)
        ensures
            r == self.enabled_flags@,
            r < 32,
    {
        self.enabled_flags.bits()
    }

    /// Writes the IF register.
    pub fn set_interrupt_latched_register(&mut self, data: u8)
        ensures
            final(self).latched_flags@ == data & 0x1F,
            *final(self) == (InterruptService { latched_flags: final(self).latched_flags, ..*old(self) }),
    {
        self.latched_flags = Interrupt::from(data);
    }

    /// Writes the IE register.
    pub fn set_interrupt_enabled_register(&mut self, data: u8)
        ensures
            final(self).enabled_flags@ == data & 0x1F,
            *final(self) == (InterruptService { enabled_flags: final(self).enabled_flags, ..*old(self) }),
    {
        self.enabled_flags = Interrupt::from(data);
    }

    /// Latches the requests of `source` into IF.
    pub fn latch_interrupt_flags(&mut self, source: Interrupt)
        ensures
            final(self).latched_flags@ == old(self).latched_flags@ | source@,
            *final(self) == (InterruptService { latched_flags: final(self).latched_flags, ..*old(self) }),
    {
        self.latched_flags.insert(source);
    }

    /// When the master switch is on and some enabled source is latched, services the one of
    /// highest priority: turns the master switch off, clears its latch and returns its
    /// restart address. Otherwise changes nothing and returns `None`.
    pub fn interrupt_service_routine(&mut self) -> (r: Option<u16>)
        ensures
            (final(self)@, r) == isr_spec(old(self)@),
            ({
                let irq = (old(self).enabled_flags@ & old(self).latched_flags@) as u8;
                if old(self).enabled && service_target(irq) is Some {
                    let (mask, addr) = service_target(irq)->0;
                    &&& r == Some(addr)
                    &&& !final(self).enabled
                    &&& final(self).latched_flags@ == old(self).latched_flags@ & !mask
                    &&& final(self).enabled_flags == old(self).enabled_flags
                    &&& final(self).enable_requested == old(self).enable_requested
                    &&& final(self).disable_requested == old(self).disable_requested
                } else {
                    &&& r is None
                    &&& *final(self) == *old(self)
                }
            }),
    {
        let irq = self.irq().bits();

        if self.enabled {
            let (mask, rst): (u8, u16) = if irq & INT_VBLANK == INT_VBLANK {
                (INT_VBLANK, 0x40u16)
            } else if irq & INT_LCDC == INT_LCDC {
                (INT_LCDC, 0x48u16)
            } else if irq & INT_TIMER == INT_TIMER {
                (INT_TIMER, 0x50u16)
            } else if irq & INT_SERIAL == INT_SERIAL {
                (INT_SERIAL, 0x58u16)
            } else if irq & INT_HL_PIN == INT_HL_PIN {
                (INT_HL_PIN, 0x60u16)
            } else {
                return None;
            };
            self.enabled = false;
            proof {
                lemma_source_bits();
            }
            self.latched_flags.remove(Interrupt::from(mask));
            return Some(rst);
        }
        None
    }
}

} // verus!
