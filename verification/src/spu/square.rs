use vstd::prelude::*;

use super::util::{
    calculate_frequency, calculate_volume, lemma_frequency_param_bound, set_high_frequency_param,
    set_low_frequency_param, volume_level,
};

verus! {

/*
    Square 1
    NR10 FF10 -PPP NSSS Sweep period, negate, shift
    NR11 FF11 DDLL LLLL Duty, Length load (64-L)
    NR12 FF12 VVVV APPP Starting volume, Envelope add mode, period
    NR13 FF13 FFFF FFFF Frequency LSB
    NR14 FF14 TL-- -FFF Trigger, Length enable, Frequency MSB

        Square 2
        FF15 ---- ---- Not used
    NR21 FF16 DDLL LLLL Duty, Length load (64-L)
    NR22 FF17 VVVV APPP Starting volume, Envelope add mode, period
    NR23 FF18 FFFF FFFF Frequency LSB
    NR24 FF19 TL-- -FFF Trigger, Length enable, Frequency MSB
*/
/// The register state of a square wave channel. The sampler that turns it into sound
/// drives `playing`, `restart` and the envelope (`volume_step`, `volume`) as it plays.
#[derive(Clone, Copy, Debug, PartialEq, Eq, Structural)]
pub struct Square {
    pub left_enable: bool,
    pub right_enable: bool,
    pub playing: bool,
    pub restart: bool,
    pub repeat: bool,
    pub frequency: u32,
    pub fparam: u32,
    pub envelope_direction: bool,
    pub envelope_start_volume: u8,
    pub envelope_sweep_number: u8,
    pub sweep_inverse: bool,
    pub sweep_period: u8,
    pub sweep_shift: u8,
    pub wave_duty: u8,
    pub wave_length: u8,
    pub volume_step: u8,
    pub volume: i8,
}

impl Square {
    /// The frequency parameter has 11 bits and the frequency is the one it stands for.
    pub open spec fn wf(self) -> bool {
        &&& self.fparam < 2048
        &&& self.frequency == 131_072int / (2048 - self.fparam)
    }

    /// The channel after a write of NR10 (sweep).
    pub open spec fn with_r0(self, r: u8) -> Square {
        Square { sweep_inverse: r & 0x08 != 0, sweep_period: (r >> 4) & 0x07, sweep_shift: r & 0x07, ..self }
    }

    /// The channel after a write of NRx1 (duty, length).
    pub open spec fn with_r1(self, r: u8) -> Square {
        Square { wave_duty: r >> 6, wave_length: r & 0x3F, ..self }
    }

    /// The channel after a write of NRx2 (envelope); the volume restarts from the initial one.
    pub open spec fn with_r2(self, r: u8) -> Square {
        Square {
            envelope_start_volume: r >> 4,
            envelope_direction: r & 0x08 != 0,
            envelope_sweep_number: r & 0x07,
            volume_step: r >> 4,
            volume: volume_level(r >> 4),
            ..self
        }
    }

    /// The channel after a write of NRx3 (frequency, lower eight bits).
    pub open spec fn with_r3(self, data: u8) -> Square {
        let fparam = (self.fparam & 0x700) | (data as u32 & 0x0FF);
        Square { fparam, frequency: (131_072int / (2048 - fparam)) as u32, ..self }
    }

    /// The channel after a write of NRx4 (trigger, length enable, frequency upper bits).
    pub open spec fn with_r4(self, r: u8) -> Square {
        let fparam = (((r & 0x07) as u32 & 0x7) << 8) | (self.fparam & 0xFF);
        Square {
            fparam,
            frequency: (131_072int / (2048 - fparam)) as u32,
            repeat: r & 0x40 == 0,
            restart: r & 0x80 != 0,
            ..self
        }
    }
}

impl Square {
    /// A silent channel: nothing enabled or playing, frequency parameter 0 (64 Hz), the
    /// envelope rising from volume 0.
    pub open spec fn initial() -> Square {
        Square {
            left_enable: false,
            right_enable: false,
            playing: false,
            restart: false,
            repeat: false,
            frequency: 64,
            fparam: 0,
            envelope_start_volume: 0,
            envelope_sweep_number: 0,
            envelope_direction: true,
            sweep_inverse: false,
            sweep_period: 0,
            sweep_shift: 0,
            wave_duty: 0,
            wave_length: 0,
            volume_step: 0,
            volume: 0,
        }
    }
}

impl Default for Square {
    fn default() -> (r: Square)
        ensures
            r == Square::initial(),
            r.wf(),
    {
        Self {
            left_enable: false,
            right_enable: false,
            playing: false,
            restart: false,
            repeat: false,
            frequency: calculate_frequency(0),
            fparam: 0,
            envelope_start_volume: 0,
            envelope_sweep_number: 0,
            envelope_direction: true,
            sweep_inverse: false,
            sweep_period: 0,
            sweep_shift: 0,
            wave_duty: 0,
            wave_length: 0,
            volume_step: 0,
            volume: 0,
        }
    }
}

impl Square {
    /// NR10: bit 7 reads as 1, period in bits 6-4, negate in bit 3, shift in bits 2-0.
    pub fn r0(&self) -> (r: u8)
        requires
            self.sweep_period < 8,
            self.sweep_shift < 8,
        ensures
            r == 0x80 | (self.sweep_period << 4) | (if self.sweep_inverse { 0x08u8 } else { 0u8 })
                | self.sweep_shift,
    {
        0x80 | (self.sweep_period << 4) | (if self.sweep_inverse { 0x08u8 } else { 0u8 })
            | self.sweep_shift
    }

    pub fn set_r0(&mut self, r: u8)
        ensures
            *final(self) == old(self).with_r0(r),
    {
        self.sweep_inverse = r & 0x08 != 0;
        self.sweep_period = (r >> 4) & 0x07;
        self.sweep_shift = r & 0x07;
    }

    /// NRx1: duty in bits 7-6, length in bits 5-0.
    pub fn r1(&self) -> (r: u8)
        requires
            self.wave_duty < 4,
            self.wave_length < 64,
        ensures
            r == (self.wave_duty << 6) | self.wave_length,
    {
        (self.wave_duty << 6) | self.wave_length
    }

    pub fn set_r1(&mut self, r: u8)
        ensures
            *final(self) == old(self).with_r1(r),
    {
        self.wave_duty = r >> 6;
        self.wave_length = r & 0x3F;
    }

    /// NRx2: initial volume in bits 7-4, direction in bit 3, step in bits 2-0.
    pub fn r2(&self) -> (r: u8)
        requires
            self.envelope_start_volume < 16,
            self.envelope_sweep_number < 8,
        ensures
            r == (self.envelope_start_volume << 4) | (if self.envelope_direction {
                0x08u8
            } else {
                0u8
            }) | self.envelope_sweep_number,
    {
        (self.envelope_start_volume << 4) | (if self.envelope_direction { 0x08u8 } else { 0u8 })
            | self.envelope_sweep_number
    }

    pub fn set_r2(&mut self, r: u8)
        ensures
            *final(self) == old(self).with_r2(r),
    {
        self.envelope_start_volume = r >> 4;
        self.envelope_direction = r & 0x08 != 0;
        self.envelope_sweep_number = r & 0x07;
        self.volume_step = self.envelope_start_volume;
        self.volume = calculate_volume(self.volume_step);
    }

    /// NRx3: the lower eight bits of the frequency parameter.
    pub fn r3(&self) -> (r: u8)
        ensures
            r == self.fparam % 256,
    {
        (self.fparam % 256) as u8
    }

    pub fn set_r3(&mut self, data: u8)
        requires
            old(self).wf(),
        ensures
            *final(self) == old(self).with_r3(data),
            final(self).wf(),
    {
        proof {
            lemma_frequency_param_bound();
        }
        self.fparam = set_low_frequency_param(self.fparam, data as u32);
        self.frequency = calculate_frequency(self.fparam);
    }

    /// NRx4: the upper three bits of the frequency parameter.
    pub fn r4(&self) -> (r: u8)
        ensures
            r == (self.fparam / 256) % 8,
    {
        ((self.fparam / 256) % 8) as u8
    }

    pub fn set_r4(&mut self, r: u8)
        requires
            old(self).wf(),
        ensures
            *final(self) == old(self).with_r4(r),
            final(self).wf(),
    {
        proof {
            lemma_frequency_param_bound();
        }
        self.fparam = set_high_frequency_param(self.fparam, (r & 0x07) as u32);
        self.frequency = calculate_frequency(self.fparam);
        self.repeat = r & 0x40 == 0;
        self.restart = r & 0x80 != 0;
    }
}

impl Square {
    /// Starts a triggered channel: the trigger is taken and the channel plays. Returns
    /// whether the channel was triggered.
    pub fn take_restart(&mut self) -> (r: bool)
        ensures
            r == old(self).restart,
            *final(self) == if old(self).restart {
                Square { restart: false, playing: true, ..*old(self) }
            } else {
                *old(self)
            },
    {
        if self.restart {
            self.restart = false;
            self.playing = true;
            true
        } else {
            false
        }
    }

    /// One step of the volume envelope: the volume step moves up (to at most 15) or down
    /// (to at least 0) by the envelope direction, the output level follows it, and the
    /// channel stops once the volume step is 0. Returns the output level.
    pub fn envelope_step(&mut self) -> (r: i8)
        ensures
            final(self).volume_step == if old(self).envelope_direction {
                if old(self).volume_step < 15 {
                    old(self).volume_step + 1
                } else {
                    old(self).volume_step as int
                }
            } else if old(self).volume_step >= 1 {
                old(self).volume_step - 1
            } else {
                old(self).volume_step as int
            },
            r == volume_level(final(self).volume_step),
            *final(self) == (Square {
                volume_step: final(self).volume_step,
                volume: r,
                playing: old(self).playing && final(self).volume_step != 0,
                ..*old(self)
            }),
    {
        if self.envelope_direction {
            if self.volume_step < 0xF {
                self.volume_step = self.volume_step + 1;
            }
        } else {
            if self.volume_step >= 0x1 {
                self.volume_step = self.volume_step - 1;
            }
        }
        self.volume = calculate_volume(self.volume_step);
        if self.volume_step == 0 {
            self.playing = false;
        }
        self.volume
    }
}

/// A write of NRx4 triggers the channel exactly when the written byte is at least $80
/// (bit 7), enables the length counter (clears `repeat`) exactly when its bit 6 is set, and
/// sets the three high bits of the 11-bit frequency parameter from its three low bits,
/// keeping the low eight; the other registers stay.
pub proof fn lemma_nrx4_write(s: Square, r: u8)
    ensures
        s.with_r4(r).restart == (r >= 0x80),
        s.with_r4(r).repeat == ((r / 64) % 2 == 0),
        s.with_r4(r).fparam == (r % 8) * 256 + s.fparam % 256,
        s.with_r4(r).wave_duty == s.wave_duty && s.with_r4(r).volume_step == s.volume_step
            && s.with_r4(r).playing == s.playing,
{
    assert(r & 0x80 != 0 <==> r >= 0x80) by (bit_vector);
    assert(r & 0x40 == 0 <==> (r / 64) % 2 == 0) by (bit_vector);
    let f = s.fparam;
    assert((((r & 0x07) as u32 & 0x7) << 8) | (f & 0xFF) == (r % 8) * 256 + f % 256) by (bit_vector);
}

/// NR10 sets the sweep period from bits 6-4, the negate flag from bit 3 and the shift from
/// bits 2-0; NRx1 the duty from bits 7-6 and the length from bits 5-0; NRx2 the initial
/// volume (and the current volume step) from bits 7-4, the envelope direction from bit 3
/// and its period from bits 2-0; NRx3 the low eight bits of the frequency parameter.
pub proof fn lemma_square_register_writes(s: Square, r: u8)
    ensures
        s.with_r0(r).sweep_period == (r / 16) % 8,
        s.with_r0(r).sweep_inverse == ((r / 8) % 2 == 1),
        s.with_r0(r).sweep_shift == r % 8,
        s.with_r1(r).wave_duty == r / 64,
        s.with_r1(r).wave_length == r % 64,
        s.with_r2(r).envelope_start_volume == r / 16,
        s.with_r2(r).volume_step == r / 16,
        s.with_r2(r).envelope_direction == ((r / 8) % 2 == 1),
        s.with_r2(r).envelope_sweep_number == r % 8,
        s.with_r2(r).fparam == s.fparam && s.with_r1(r).fparam == s.fparam,
        s.fparam < 2048 ==> s.with_r3(r).fparam == (s.fparam / 256) * 256 + r,
{
    assert((r >> 4) & 0x07 == (r / 16) % 8 && (r & 0x08 != 0) == ((r / 8) % 2 == 1) && r & 0x07
        == r % 8 && r >> 6 == r / 64 && r & 0x3F == r % 64 && r >> 4 == r / 16) by (bit_vector);
    let f = s.fparam;
    assert(f < 2048 ==> (f & 0x700) | (r as u32 & 0x0FF) == (f / 256) * 256 + r as u32) by (bit_vector);
}

} // verus!
