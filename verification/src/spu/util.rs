use vstd::prelude::*;

verus! {

/// The 11-bit frequency parameter with its lower eight bits replaced by `low`.
pub fn set_low_frequency_param(fparam: u32, low: u32) -> (r: u32)
    ensures
        r == (fparam & 0x700) | (low & 0x0FF),
{
    (fparam & 0x700) | (low & 0x0FF)
}

/// The 11-bit frequency parameter with its upper three bits replaced by `high`.
pub fn set_high_frequency_param(fparam: u32, high: u32) -> (r: u32)
    ensures
        r == ((high & 0x7) << 8) | (fparam & 0xFF),
{
    ((high & 0x7) << 8) | (fparam & 0xFF)
}

/// Both ways of setting part of the frequency parameter give an 11-bit value.
pub proof fn lemma_frequency_param_bound()
    by (bit_vector)
    ensures
        forall|f: u32, v: u32| #[trigger] ((f & 0x700) | (v & 0x0FF)) < 2048,
        forall|f: u32, v: u32| #[trigger] (((v & 0x7) << 8) | (f & 0xFF)) < 2048,
{
}

/// The tone frequency in hertz of a frequency parameter: 131072 / (2048 - f).
pub fn calculate_frequency(f: u32) -> (r: u32)
    requires
        f < 2048,
    ensures
        r == 131_072int / (2048 - f),
{
    131_072 / (2048 - f)
}

/// The amplitude of a 4-bit wave sample: a ramp from -127 to 127 with zero at 7 and 8.
pub open spec fn sample_amplitude(s: u8) -> i8 {
    if s == 0 {
        -127i8
    } else if s == 1 {
        -109i8
    } else if s == 2 {
        -90i8
    } else if s == 3 {
        -72i8
    } else if s == 4 {
        -54i8
    } else if s == 5 {
        -36i8
    } else if s == 6 {
        -18i8
    } else if s == 7 {
        0i8
    } else if s == 8 {
        0i8
    } else if s == 9 {
        18i8
    } else if s == 10 {
        36i8
    } else if s == 11 {
        54i8
    } else if s == 12 {
        72i8
    } else if s == 13 {
        90i8
    } else if s == 14 {
        109i8
    } else {
        127i8
    }
}

/// The output level of envelope volume step `v`: steps 0 to 15 scaled onto 0 to 127,
/// rounded toward zero; steps above 15 give 127.
pub open spec fn volume_level(v: u8) -> i8 {
    if v >= 15 {
        127
    } else {
        (127 * v / 15) as i8
    }
}

/// The output level of an envelope volume step.
pub fn calculate_volume(v: u8) -> (r: i8)
    ensures
        r == volume_level(v),
{
    if v >= 15 {
        127
    } else {
        let scaled: u16 = 127 * v as u16 / 15;
        assert(scaled <= 118);
        scaled as i8
    }
}

/// The amplitude of a 4-bit wave sample.
pub fn calculate_sample(s: u8) -> (r: i8)
    requires
        s < 16,
    ensures
        r == sample_amplitude(s),
{
    /*
    F |               **
    E |              *  *
    D |             *    *
    C |            *      *
    B |           *        *
    A |          *          *
    9 |         *            *
    8 |        *              *
    7 |       *                *
    6 |      *                  *
    5 |     *                    *
    4 |    *                      *
    3 |   *                        *
    2 |  *                          *
    1 | *                            *
    0 |*                              *
    *  --------------------------------
    */
    match s {
        0 => -127,
        1 => -109,
        2 => -90,
        3 => -72,
        4 => -54,
        5 => -36,
        6 => -18,
        7 => 0,
        8 => 0,
        9 => 18,
        10 => 36,
        11 => 54,
        12 => 72,
        13 => 90,
        14 => 109,
        _ => 127,
    }
}

} // verus!
