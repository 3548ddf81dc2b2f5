use vstd::prelude::*;

use crate::MemoryBus;

verus! {

/// The input clock of the timer counter, in ticks per increment, by the two lower bits
/// of the control register.
pub const COUNTER_DIV: [u16; 4] = [1024, 16, 64, 256];

pub const DIV_ADDR: u16 = 0xFF04;
pub const TIMA_ADDR: u16 = 0xFF05;
pub const TMA_ADDR: u16 = 0xFF06;
pub const TAC_ADDR: u16 = 0xFF07;

/// The abstract state of the timer.
pub struct TimerView {
    pub overflow_interrupt_requested: bool,
    pub control: u8,
    pub ticks_acc: u16,
    pub ticks_reset: bool,
    pub timer_acc: u8,
    pub timer_modulo: u8,
    pub timer_in_bit: bool,
    pub timer_in_mask: u16,
    pub timer_enable: bool,
}

/// The timer after `ticks` clock ticks: the divider accumulates the ticks (or restarts
/// from zero after a write to DIV); when enabled, the counter increments on each falling
/// edge of the selected divider bit, reloads from the modulo when it overflows, and an
/// overflow requests the timer interrupt.
pub open spec fn timer_step(t: TimerView, ticks: u64) -> TimerView {
    let acc: u16 = if t.ticks_reset {
        0
    } else {
        ((t.ticks_acc + ticks) % 65536) as u16
    };
    if t.timer_enable {
        let next_in_bit = acc & t.timer_in_mask != 0;
        let falling = t.timer_in_bit && !next_in_bit;
        let overflow = falling && t.timer_acc == 255;
        TimerView {
            ticks_acc: acc,
            ticks_reset: false,
            overflow_interrupt_requested: overflow,
            timer_acc: if !falling {
                t.timer_acc
            } else if overflow {
                t.timer_modulo
            } else {
                (t.timer_acc + 1) as u8
            },
            timer_in_bit: next_in_bit,
            ..t
        }
    } else {
        TimerView { ticks_acc: acc, ticks_reset: false, overflow_interrupt_requested: false, ..t }
    }
}

/// The timer: divider (DIV), counter (TIMA), modulo (TMA) and control (TAC).
#[derive(Debug, Clone, Copy)]
pub struct Timer {
    overflow_interrupt_requested: bool,
    control: u8,
    // divider
    ticks_acc: u16,
    ticks_reset: bool,
    // timer
    timer_acc: u8,
    timer_modulo: u8,
    timer_in_bit: bool,
    timer_in_mask: u16,
    timer_enable: bool,
}

impl View for Timer {
    type V = TimerView;

    closed spec fn view(&self) -> TimerView {
        TimerView {
            overflow_interrupt_requested: self.overflow_interrupt_requested,
            control: self.control,
            ticks_acc: self.ticks_acc,
            ticks_reset: self.ticks_reset,
            timer_acc: self.timer_acc,
            timer_modulo: self.timer_modulo,
            timer_in_bit: self.timer_in_bit,
            timer_in_mask: self.timer_in_mask,
            timer_enable: self.timer_enable,
        }
    }
}

impl Default for Timer {
    fn default() -> (r: Timer)
        ensures
            r@ == (TimerView {
                overflow_interrupt_requested: false,
                control: 0xff,
                ticks_acc: 0,
                ticks_reset: false,
                timer_acc: 0,
                timer_modulo: 0,
                timer_in_bit: false,
                timer_in_mask: 256,
                timer_enable: true,
            }),
    {
        Self {
            overflow_interrupt_requested: false,
            control: 0xff,
            ticks_acc: 0,
            ticks_reset: false,
            timer_acc: 0,
            timer_modulo: 0,
            timer_in_bit: false,
            timer_in_mask: COUNTER_DIV[3],
            timer_enable: true,
        }
    }
}

/// The register that a read of the timer at `addr` gives.
pub open spec fn timer_read(t: TimerView, addr: u16) -> u8 {
    if addr == DIV_ADDR {
        (t.ticks_acc / 256) as u8
    } else if addr == TIMA_ADDR {
        t.timer_acc
    } else if addr == TMA_ADDR {
        t.timer_modulo
    } else {
        t.control
    }
}

/// The timer after writing `control` to TAC: bit 2 enables the counter, bits 1-0 select
/// its input clock.
pub open spec fn timer_set_control(t: TimerView, control: u8) -> TimerView {
    TimerView {
        timer_enable: (control / 4) % 2 == 1,
        timer_in_mask: COUNTER_DIV@[(control % 4) as int],
        control,
        ..t
    }
}

/// The timer after a write of `data` at `addr`; a write to DIV restarts the divider.
pub open spec fn timer_write(t: TimerView, addr: u16, data: u8) -> TimerView {
    if addr == DIV_ADDR {
        TimerView { ticks_reset: true, ..t }
    } else if addr == TIMA_ADDR {
        TimerView { timer_acc: data, ..t }
    } else if addr == TMA_ADDR {
        TimerView { timer_modulo: data, ..t }
    } else {
        timer_set_control(t, data)
    }
}

impl MemoryBus for Timer {
    open spec fn reads_at(&self, addr: u16) -> bool {
        DIV_ADDR <= addr <= TAC_ADDR
    }

    open spec fn writes_at(&self, addr: u16, data: u8) -> bool {
        DIV_ADDR <= addr <= TAC_ADDR
    }

    fn read(&self, addr: u16) -> (r: u8)
        ensures
            r == timer_read(self@, addr),
    {
        if addr == DIV_ADDR {
            self.divider()
        } else if addr == TIMA_ADDR {
            self.counter()
        } else if addr == TMA_ADDR {
            self.modulo()
        } else {
            self.control()
        }
    }

    fn write(&mut self, addr: u16, data: u8)
        ensures
            final(self)@ == timer_write(old(self)@, addr, data),
    {
        if addr == DIV_ADDR {
            self.ticks_reset = true
        } else if addr == TIMA_ADDR {
            self.set_counter(data)
        } else if addr == TMA_ADDR {
            self.set_modulo(data)
        } else {
            self.set_control(data)
        }
    }
}

impl Timer {
    pub fn control(&self) -> (r: u8)
        ensures
            r == self@.control,
    {
        self.control
    }

    pub fn set_control(&mut self, control: u8)
        ensures
            final(self)@ == timer_set_control(old(self)@, control),
    {
        self.timer_enable = (control / 4) % 2 == 1;
        self.timer_in_mask = COUNTER_DIV[(control % 4) as usize];
        self.control = control
    }

    pub fn counter(&self) -> (r: u8)
        ensures
            r == self@.timer_acc,
    {
        self.timer_acc
    }

    pub fn set_counter(&mut self, counter: u8)
        ensures
            final(self)@ == (TimerView { timer_acc: counter, ..old(self)@ }),
    {
        self.timer_acc = counter;
    }

    pub fn divider(&self) -> (r: u8)
        ensures
            r == self@.ticks_acc / 256,
    {
        (self.ticks_acc / 256) as u8
    }

    /// The ticks accumulated by the divider.
    pub fn divider_ticks(&self) -> (r: u16)
        ensures
            r == self@.ticks_acc,
    {
        self.ticks_acc
    }

    pub fn modulo(&self) -> (r: u8)
        ensures
            r == self@.timer_modulo,
    {
        self.timer_modulo
    }

    pub fn set_modulo(&mut self, modulo: u8)
        ensures
            final(self)@ == (TimerView { timer_modulo: modulo, ..old(self)@ }),
    {
        self.timer_modulo = modulo
    }

    pub fn overflow_interrupt_requested(&self) -> (r: bool)
        ensures
            r == self@.overflow_interrupt_requested,
    {
        self.overflow_interrupt_requested
    }

    /// Advances the timer by `ticks` clock ticks.
    pub fn step(&mut self, ticks: u64)
        ensures
            final(self)@ == timer_step(old(self)@, ticks),
    {
        self.ticks_acc = if self.ticks_reset {
            0
        } else {
            self.ticks_acc.wrapping_add((ticks % 65536) as u16)
        };
        self.ticks_reset = false;

        self.overflow_interrupt_requested = false;
        if self.timer_enable {
            let next_in_bit = (self.ticks_acc & self.timer_in_mask) != 0;
            if self.timer_in_bit && !next_in_bit {
                let overflow = self.timer_acc == 255;
                self.timer_acc = if overflow {
                    self.timer_modulo
                } else {
                    self.timer_acc + 1
                };
                self.overflow_interrupt_requested = overflow;
            }
            self.timer_in_bit = next_in_bit;
        }
    }
}

/// The counter (TIMA) of a step: it moves only on a falling edge of the selected divider
/// bit while the timer is enabled; then it counts up by one, except from 255, where it is
/// reloaded with the modulo (TMA) and the overflow interrupt is requested. Without a falling
/// edge it keeps its value and nothing is requested. The divider accumulates the ticks
/// (restarting from zero after a write to DIV), and the modulo and control stay.
pub proof fn lemma_timer_counting(t: TimerView, ticks: u64)
    ensures
        ({
            let r = timer_step(t, ticks);
            let divider = if t.ticks_reset {
                0
            } else {
                (t.ticks_acc + ticks) % 65536
            };
            let falling = t.timer_enable && t.timer_in_bit && (r.ticks_acc & t.timer_in_mask) == 0;
            &&& r.ticks_acc == divider
            &&& r.timer_modulo == t.timer_modulo
            &&& r.control == t.control
            &&& (falling && t.timer_acc == 255) ==> r.timer_acc == t.timer_modulo
                && r.overflow_interrupt_requested
            &&& (falling && t.timer_acc < 255) ==> r.timer_acc == t.timer_acc + 1
                && !r.overflow_interrupt_requested
            &&& !falling ==> r.timer_acc == t.timer_acc && !r.overflow_interrupt_requested
        }),
{
}

/// A write of TAC enables the counter exactly when bit 2 is set and clocks it from divider
/// bit 9, 3, 5 or 7 (every 1024, 16, 64 or 256 ticks) by its two low bits; writes of TIMA and
/// TMA set those registers; a write of DIV restarts the divider at the next step. Each
/// write leaves the other registers alone.
pub proof fn lemma_timer_register_writes(t: TimerView, d: u8)
    ensures
        timer_write(t, TAC_ADDR, d).timer_enable == (d / 4 % 2 == 1),
        timer_write(t, TAC_ADDR, d).timer_in_mask == if d % 4 == 0 {
            1024u16
        } else if d % 4 == 1 {
            16u16
        } else if d % 4 == 2 {
            64u16
        } else {
            256u16
        },
        timer_write(t, TAC_ADDR, d).control == d,
        timer_write(t, TAC_ADDR, d).timer_acc == t.timer_acc,
        timer_write(t, TIMA_ADDR, d) == (TimerView { timer_acc: d, ..t }),
        timer_write(t, TMA_ADDR, d) == (TimerView { timer_modulo: d, ..t }),
        timer_write(t, DIV_ADDR, d) == (TimerView { ticks_reset: true, ..t }),
        timer_read(timer_write(t, TIMA_ADDR, d), TIMA_ADDR) == d,
        timer_read(timer_write(t, TMA_ADDR, d), TMA_ADDR) == d,
        timer_read(timer_write(t, TAC_ADDR, d), TAC_ADDR) == d,
{
}

} // verus!
