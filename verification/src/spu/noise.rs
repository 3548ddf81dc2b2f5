use vstd::prelude::*;

verus! {

//         Noise
// FF1F ---- ---- Not used
// NR41 FF20 --LL LLLL Length load (64-L)
// NR42 FF21 VVVV APPP Starting volume, Envelope add mode, period
// NR43 FF22 SSSS WDDD Clock shift, Width mode of LFSR, Divisor code
// NR44 FF23 TL-- ---- Trigger, Length enable
/// The register state of the noise channel.
#[derive(Clone, Copy, Debug, PartialEq, Eq, Structural)]
pub struct Noise {
    pub left_enable: bool,
    pub right_enable: bool,
    pub playing: bool,
    pub repeat: bool,
    pub envelope_add_mode: bool,
    pub envelope_start_volume: u8,
    pub envelope_sweep_number: u8,
    pub clock_shift: u8,
    pub clock_width_mode: u8,
    pub clock_divisor_code: u8,
}

impl Default for Noise {
    fn default() -> (r: Noise)
        ensures
            r == (Noise {
                left_enable: false,
                right_enable: false,
                playing: false,
                repeat: false,
                envelope_add_mode: false,
                envelope_start_volume: 0,
                envelope_sweep_number: 0,
                clock_shift: 0,
                clock_width_mode: 0,
                clock_divisor_code: 0,
            }),
    {
        Noise {
            left_enable: false,
            right_enable: false,
            playing: false,
            repeat: false,
            envelope_add_mode: false,
            envelope_start_volume: 0,
            envelope_sweep_number: 0,
            clock_shift: 0,
            clock_width_mode: 0,
            clock_divisor_code: 0,
        }
    }
}

} // verus!
