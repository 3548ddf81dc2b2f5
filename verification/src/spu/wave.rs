use vstd::prelude::*;

verus! {

//         Wave
// NR30 FF1A E--- ---- DAC power
// NR31 FF1B LLLL LLLL Length load (256-L)
// NR32 FF1C -VV- ---- Volume code (00=0%, 01=100%, 10=50%, 11=25%)
// NR33 FF1D FFFF FFFF Frequency LSB
// NR34 FF1E TL-- -FFF Trigger, Length enable, Frequency MSB
/// The register state of the wave channel.
#[derive(Clone, Copy, Debug)]
pub struct Wave {
    pub left_enable: bool,
    pub right_enable: bool,
    pub playing: bool,
    pub restart: bool,
    pub repeat: bool,
    pub frequency: u16,
    pub wave_length_load: u8,
    pub wave_volume: u8,
    pub wave_samples: [i8; 32],
}

impl Default for Wave {
    fn default() -> (r: Wave)
        ensures
            !r.left_enable,
            !r.right_enable,
            !r.playing,
            !r.restart,
            !r.repeat,
            r.frequency == 0,
            r.wave_length_load == 0,
            r.wave_volume == 0,
            r.wave_samples@ == Seq::new(32, |i: int| 0i8),
    {
        let r = Wave {
            left_enable: false,
            right_enable: false,
            playing: false,
            restart: false,
            repeat: false,
            frequency: 0,
            wave_length_load: 0,
            wave_volume: 0,
            wave_samples: [0; 32],
        };
        assert(r.wave_samples@ =~= Seq::new(32, |i: int| 0i8));
        r
    }
}

} // verus!
