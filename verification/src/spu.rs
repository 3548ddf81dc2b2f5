pub mod noise;
pub mod square;
pub mod util;
pub mod wave;

use vstd::prelude::*;

use crate::MemoryBus;
use noise::Noise;
use square::Square;
use wave::Wave;

verus! {

pub const NR10: u16 = 0xFF10;
pub const NR11: u16 = 0xFF11;
pub const NR12: u16 = 0xFF12;
pub const NR13: u16 = 0xFF13;
pub const NR14: u16 = 0xFF14;

pub const NR21: u16 = 0xFF16;
pub const NR22: u16 = 0xFF17;
pub const NR23: u16 = 0xFF18;
pub const NR24: u16 = 0xFF19;

pub const NR50: u16 = 0xFF24;
pub const NR51: u16 = 0xFF25;
pub const NR52: u16 = 0xFF26;

/// The sound processing unit: master controls and the state of the four channels.
#[derive(Clone, Copy, Debug)]
pub struct Spu {
    pub enabled: bool,
    /// SO2
    pub left_volume: u8,
    /// SO1
    pub right_volume: u8,
    /// TONE & SWEEP
    pub channel1: Square,
    /// TONE
    pub channel2: Square,
    /// WAVE
    pub channel3: Wave,
    /// NOISE
    pub channel4: Noise,
}

impl Spu {
    pub open spec fn wf(self) -> bool {
        self.channel1.wf() && self.channel2.wf()
    }
}

/// The sound unit after a write of `data` at `addr`.
pub open spec fn spu_write(s: Spu, addr: u16, data: u8) -> Spu {
    if addr == NR10 {
        Spu { channel1: s.channel1.with_r0(data), ..s }
    } else if addr == NR11 {
        Spu { channel1: s.channel1.with_r1(data), ..s }
    } else if addr == NR12 {
        Spu { channel1: s.channel1.with_r2(data), ..s }
    } else if addr == NR13 {
        Spu { channel1: s.channel1.with_r3(data), ..s }
    } else if addr == NR14 {
        Spu { channel1: s.channel1.with_r4(data), ..s }
    } else if addr == NR21 {
        Spu { channel2: s.channel2.with_r1(data), ..s }
    } else if addr == NR22 {
        Spu { channel2: s.channel2.with_r2(data), ..s }
    } else if addr == NR23 {
        Spu { channel2: s.channel2.with_r3(data), ..s }
    } else if addr == NR24 {
        Spu { channel2: s.channel2.with_r4(data), ..s }
    } else if addr == NR50 {
        Spu { left_volume: (data >> 4) & 0x07, right_volume: data & 0x07, ..s }
    } else if addr == NR51 {
        Spu {
            channel4: Noise {
                left_enable: data & 0x80 != 0,
                right_enable: data & 0x08 != 0,
                ..s.channel4
            },
            channel3: Wave { left_enable: data & 0x40 != 0, right_enable: data & 0x04 != 0, ..s.channel3 },
            channel2: Square {
                left_enable: data & 0x20 != 0,
                right_enable: data & 0x02 != 0,
                ..s.channel2
            },
            channel1: Square {
                left_enable: data & 0x10 != 0,
                right_enable: data & 0x01 != 0,
                ..s.channel1
            },
            ..s
        }
    } else if addr == NR52 {
        Spu { enabled: data & 0x80 != 0, ..s }
    } else {
        s
    }
}

/// The sound unit at power on: off, master volumes 0, both square channels silent (see
/// `Square::initial`), and the wave and noise channels silent with every register 0.
pub open spec fn spu_initial(s: Spu) -> bool {
    &&& !s.enabled
    &&& s.left_volume == 0
    &&& s.right_volume == 0
    &&& s.channel1 == Square::initial()
    &&& s.channel2 == Square::initial()
    &&& !s.channel3.left_enable && !s.channel3.right_enable && !s.channel3.playing
    &&& !s.channel3.restart && !s.channel3.repeat && s.channel3.frequency == 0
    &&& s.channel3.wave_length_load == 0 && s.channel3.wave_volume == 0
    &&& s.channel3.wave_samples@ == Seq::new(32, |i: int| 0i8)
    &&& s.channel4 == (Noise {
        left_enable: false,
        right_enable: false,
        playing: false,
        repeat: false,
        envelope_add_mode: false,
        envelope_start_volume: 0,
        envelope_sweep_number: 0,
        clock_shift: 0,
        clock_width_mode: 0,
        clock_divisor_code: 0,
    })
}

impl Default for Spu {
    fn default() -> (r: Spu)
        ensures
            r.wf(),
            spu_initial(r),
    {
        Spu {
            enabled: false,
            left_volume: 0,
            right_volume: 0,
            channel1: Square::default(),
            channel2: Square::default(),
            channel3: Wave::default(),
            channel4: Noise::default(),
        }
    }
}

impl MemoryBus for Spu {
    open spec fn reads_at(&self, addr: u16) -> bool {
        true
    }

    open spec fn writes_at(&self, addr: u16, data: u8) -> bool {
        self.wf()
    }

    /// The sound registers read as zero.
    fn read(&self, addr: u16) -> (r: u8)
        ensures
            r == 0,
    {
        0
    }

    fn write(&mut self, addr: u16, data: u8)
        ensures
            *final(self) == spu_write(*old(self), addr, data),
            final(self).wf(),
    {
        if NR10 <= addr && addr <= NR14 {
            self.write_channel1(addr, data);
        } else if NR21 <= addr && addr <= NR24 {
            self.write_channel2(addr, data);
        } else if addr == NR50 {
            self.left_volume = (data >> 4) & 0x07;
            self.right_volume = data & 0x07;
        } else if addr == NR51 {
            self.channel4 = Noise {
                left_enable: data & 0x80 != 0,
                right_enable: data & 0x08 != 0,
                ..self.channel4
            };
            self.channel3 = Wave {
                left_enable: data & 0x40 != 0,
                right_enable: data & 0x04 != 0,
                ..self.channel3
            };
            self.channel2 = Square {
                left_enable: data & 0x20 != 0,
                right_enable: data & 0x02 != 0,
                ..self.channel2
            };
            self.channel1 = Square {
                left_enable: data & 0x10 != 0,
                right_enable: data & 0x01 != 0,
                ..self.channel1
            };
        } else if addr == NR52 {
            self.enabled = data & 0x80 != 0;
        }
    }
}

impl Spu {
    /// A write of NR10 to NR14.
    fn write_channel1(&mut self, addr: u16, data: u8)
        requires
            old(self).wf(),
            NR10 <= addr <= NR14,
        ensures
            *final(self) == spu_write(*old(self), addr, data),
            final(self).wf(),
    {
        if addr == NR10 {
            self.channel1.set_r0(data);
        } else if addr == NR11 {
            self.channel1.set_r1(data);
        } else if addr == NR12 {
            self.channel1.set_r2(data);
        } else if addr == NR13 {
            self.channel1.set_r3(data);
        } else {
            self.channel1.set_r4(data);
        }
    }

    /// A write of NR21 to NR24.
    fn write_channel2(&mut self, addr: u16, data: u8)
        requires
            old(self).wf(),
            NR21 <= addr <= NR24,
        ensures
            *final(self) == spu_write(*old(self), addr, data),
            final(self).wf(),
    {
        if addr == NR21 {
            self.channel2.set_r1(data);
        } else if addr == NR22 {
            self.channel2.set_r2(data);
        } else if addr == NR23 {
            self.channel2.set_r3(data);
        } else {
            self.channel2.set_r4(data);
        }
    }
}

/// A write of NR14 triggers channel 1, and a write of NR24 triggers channel 2, exactly when
/// the written byte has bit 7 set; no other channel is triggered.
pub proof fn lemma_trigger_writes(s: Spu, d: u8)
    ensures
        spu_write(s, NR14, d).channel1.restart == (d >= 0x80),
        spu_write(s, NR14, d).channel2 == s.channel2,
        spu_write(s, NR24, d).channel2.restart == (d >= 0x80),
        spu_write(s, NR24, d).channel1 == s.channel1,
{
    square::lemma_nrx4_write(s.channel1, d);
    square::lemma_nrx4_write(s.channel2, d);
}

} // verus!
