use vstd::prelude::*;

verus! {

/// Bit 6 - LYC=LY Coincidence Interrupt (1=Enable) (Read/Write)
pub const LINE_Y_COINCIDENCE_INTERRUPT_ENABLE: u8 = 1 << 6;
/// Bit 5 - Mode 2 OAM Interrupt         (1=Enable) (Read/Write)
pub const MODE_OAM_INTERRUPT_ENABLE: u8 = 1 << 5;
/// Bit 4 - Mode 1 V-Blank Interrupt     (1=Enable) (Read/Write)
pub const MODE_V_BLANK_INTERRUPT_ENABLE: u8 = 1 << 4;
/// Bit 3 - Mode 0 H-Blank Interrupt     (1=Enable) (Read/Write)
pub const MODE_H_BLANK_INTERRUPT_ENABLE: u8 = 1 << 3;
/// Bit 2 - Coincidence Flag  (0:LYC<>LY, 1:LYC=LY) (Read Only)
pub const LINE_Y_COINCIDENCE_FLAG: u8 = 1 << 2;
/// Bit 1-0 - Mode Flag       (Mode 0-3) (Read Only)
pub const MODE_FLAG_MASK: u8 = 0b11;
pub const READ_ONLY_MASK: u8 = 0b0000_0111;

/// The mode of the LCD controller.
/// 0: During H-Blank
/// 1: During V-Blank
/// 2: During Searching OAM
/// 3: During Transferring Data to LCD Driver
#[derive(Clone, Copy, Debug, PartialEq, Eq, Structural)]
pub enum LcdControlMode {
    HorizontalBlank,
    VerticalBlank,
    ScanningOAM,
    Transfering,
}

/// The number of a mode (0 to 3).
pub open spec fn mode_number(mode: LcdControlMode) -> u8 {
    match mode {
        LcdControlMode::Transfering => 3,
        LcdControlMode::ScanningOAM => 2,
        LcdControlMode::VerticalBlank => 1,
        LcdControlMode::HorizontalBlank => 0,
    }
}

/// The mode of a number (0 to 3).
pub open spec fn mode_of_number(value: u8) -> LcdControlMode {
    if value == 3 {
        LcdControlMode::Transfering
    } else if value == 2 {
        LcdControlMode::ScanningOAM
    } else if value == 1 {
        LcdControlMode::VerticalBlank
    } else {
        LcdControlMode::HorizontalBlank
    }
}

impl From<LcdControlMode> for u8 {
    fn from(value: LcdControlMode) -> (r: u8)
        ensures
            r == mode_number(value),
    {
        match value {
            LcdControlMode::Transfering => 3,
            LcdControlMode::ScanningOAM => 2,
            LcdControlMode::VerticalBlank => 1,
            LcdControlMode::HorizontalBlank => 0,
        }
    }
}

impl vstd::std_specs::convert::FromSpecImpl<LcdControlMode> for u8 {
    open spec fn obeys_from_spec() -> bool {
        true
    }

    open spec fn from_spec(v: LcdControlMode) -> u8 {
        mode_number(v)
    }
}

impl LcdControlMode {
    /// The mode with number `value` (0 to 3).
    pub fn from_number(value: u8) -> (r: LcdControlMode)
        requires
            value < 4,
        ensures
            r == mode_of_number(value),
    {
        if value == 3 {
            Self::Transfering
        } else if value == 2 {
            Self::ScanningOAM
        } else if value == 1 {
            Self::VerticalBlank
        } else {
            Self::HorizontalBlank
        }
    }
}

/// The abstract content of the STAT register.
pub struct StatView {
    pub coincidence_interrupt: bool,
    pub oam_interrupt: bool,
    pub vblank_interrupt: bool,
    pub hblank_interrupt: bool,
    pub coincidence: bool,
    pub mode: LcdControlMode,
}

/// The byte of the STAT register.
pub open spec fn stat_bits(s: StatView) -> u8 {
    ((if s.coincidence_interrupt { 0x40u8 } else { 0u8 }) | (if s.oam_interrupt { 0x20u8 } else {
        0u8
    })) | (((if s.vblank_interrupt { 0x10u8 } else { 0u8 }) | (if s.hblank_interrupt { 0x08u8 } else {
        0u8
    })) | ((if s.coincidence { 0x04u8 } else { 0u8 }) | mode_number(s.mode)))
}

/// The STAT register that a byte below 0x80 stands for.
pub open spec fn stat_of(v: u8) -> StatView {
    StatView {
        coincidence_interrupt: v & 0x40 != 0,
        oam_interrupt: v & 0x20 != 0,
        vblank_interrupt: v & 0x10 != 0,
        hblank_interrupt: v & 0x08 != 0,
        coincidence: v & 0x04 != 0,
        mode: mode_of_number(v % 4),
    }
}

/// Reading the STAT fields off the byte of a STAT register gives them back; the byte of the
/// fields read off a byte below $80 is that byte.
pub proof fn lemma_stat_round_trip(s: StatView, v: u8)
    ensures
        stat_of(stat_bits(s)) == s,
        v < 0x80 ==> stat_bits(stat_of(v)) == v,
{
    let m = mode_number(s.mode);
    assert(m < 4);
    let (a, b, c, d, e) = (
        s.coincidence_interrupt,
        s.oam_interrupt,
        s.vblank_interrupt,
        s.hblank_interrupt,
        s.coincidence,
    );
    let x: u8 = ((if a { 0x40u8 } else { 0u8 }) | (if b { 0x20u8 } else { 0u8 })) | (((if c {
        0x10u8
    } else {
        0u8
    }) | (if d { 0x08u8 } else { 0u8 })) | ((if e { 0x04u8 } else { 0u8 }) | m));
    assert((x & 0x40 != 0) == a && (x & 0x20 != 0) == b && (x & 0x10 != 0) == c && (x & 0x08 != 0)
        == d && (x & 0x04 != 0) == e && x % 4 == m) by (bit_vector)
        requires
            m < 4,
            x == ((if a { 0x40u8 } else { 0u8 }) | (if b { 0x20u8 } else { 0u8 })) | (((if c {
                0x10u8
            } else {
                0u8
            }) | (if d { 0x08u8 } else { 0u8 })) | ((if e { 0x04u8 } else { 0u8 }) | m)),
    ;
    assert(v < 0x80 ==> ((if v & 0x40 != 0 { 0x40u8 } else { 0u8 }) | (if v & 0x20 != 0 {
        0x20u8
    } else {
        0u8
    })) | (((if v & 0x10 != 0 { 0x10u8 } else { 0u8 }) | (if v & 0x08 != 0 { 0x08u8 } else {
        0u8
    })) | ((if v & 0x04 != 0 { 0x04u8 } else { 0u8 }) | v % 4)) == v) by (bit_vector);
}

/// The LCD status register (STAT, $FF41): four interrupt enables, the coincidence flag
/// and the mode.
#[derive(Clone, Copy, Debug, PartialEq, Eq, Structural)]
pub struct LcdControlStatus {
    coincidence_interrupt: bool,
    oam_interrupt: bool,
    vblank_interrupt: bool,
    hblank_interrupt: bool,
    coincidence: bool,
    mode: LcdControlMode,
}

impl View for LcdControlStatus {
    type V = StatView;

    closed spec fn view(&self) -> StatView {
        StatView {
            coincidence_interrupt: self.coincidence_interrupt,
            oam_interrupt: self.oam_interrupt,
            vblank_interrupt: self.vblank_interrupt,
            hblank_interrupt: self.hblank_interrupt,
            coincidence: self.coincidence,
            mode: self.mode,
        }
    }
}

impl Default for LcdControlStatus {
    fn default() -> (r: LcdControlStatus)
        ensures
            r@ == (StatView {
                coincidence_interrupt: false,
                oam_interrupt: false,
                vblank_interrupt: false,
                hblank_interrupt: false,
                coincidence: false,
                mode: LcdControlMode::HorizontalBlank,
            }),
    {
        LcdControlStatus {
            coincidence_interrupt: false,
            oam_interrupt: false,
            vblank_interrupt: false,
            hblank_interrupt: false,
            coincidence: false,
            mode: LcdControlMode::HorizontalBlank,
        }
    }
}

impl From<LcdControlStatus> for u8 {
    fn from(value: LcdControlStatus) -> (r: u8)
        ensures
            r == stat_bits(value@),
    {
        value.bits()
    }
}

impl vstd::std_specs::convert::FromSpecImpl<LcdControlStatus> for u8 {
    open spec fn obeys_from_spec() -> bool {
        true
    }

    open spec fn from_spec(v: LcdControlStatus) -> u8 {
        stat_bits(v@)
    }
}

impl From<LcdControlStatus> for LcdControlMode {
    fn from(value: LcdControlStatus) -> (r: LcdControlMode)
        ensures
            r == value@.mode,
    {
        value.mode
    }
}

impl vstd::std_specs::convert::FromSpecImpl<LcdControlStatus> for LcdControlMode {
    open spec fn obeys_from_spec() -> bool {
        true
    }

    open spec fn from_spec(v: LcdControlStatus) -> LcdControlMode {
        v@.mode
    }
}

impl LcdControlStatus {
    /// The register that a byte stands for; bit 7 is not a bit of the register.
    pub fn from_bits(value: u8) -> (r: LcdControlStatus)
        requires
            value < 0x80,
        ensures
            r@ == stat_of(value),
    {
        LcdControlStatus {
            coincidence_interrupt: value & 0x40 != 0,
            oam_interrupt: value & 0x20 != 0,
            vblank_interrupt: value & 0x10 != 0,
            hblank_interrupt: value & 0x08 != 0,
            coincidence: value & 0x04 != 0,
            mode: LcdControlMode::from_number(value % 4),
        }
    }

    /// The byte of the register.
    pub fn bits(&self) -> (r: u8)
        ensures
            r == stat_bits(self@),
    {
        let mode: u8 = self.mode.into();
        ((if self.coincidence_interrupt { 0x40u8 } else { 0u8 }) | (if self.oam_interrupt {
            0x20u8
        } else {
            0u8
        })) | (((if self.vblank_interrupt { 0x10u8 } else { 0u8 }) | (if self.hblank_interrupt {
            0x08u8
        } else {
            0u8
        })) | ((if self.coincidence { 0x04u8 } else { 0u8 }) | mode))
    }

    /// The register with the writable bits of `value` and the read-only bits (coincidence
    /// flag and mode) of `self`.
    pub fn with_writable_bits(&self, value: LcdControlStatus) -> (r: LcdControlStatus)
        ensures
            r@ == (StatView { coincidence: self@.coincidence, mode: self@.mode, ..value@ }),
    {
        LcdControlStatus { coincidence: self.coincidence, mode: self.mode, ..value }
    }

    pub fn line_y_coincidence_interrupt_enabled(&self) -> (r: bool)
        ensures
            r == self@.coincidence_interrupt,
    {
        self.coincidence_interrupt
    }

    pub fn mode_oam_interrupt_enabled(&self) -> (r: bool)
        ensures
            r == self@.oam_interrupt,
    {
        self.oam_interrupt
    }

    pub fn mode_v_blank_interrupt_enabled(&self) -> (r: bool)
        ensures
            r == self@.vblank_interrupt,
    {
        self.vblank_interrupt
    }

    pub fn mode_h_blank_interrupt_enabled(&self) -> (r: bool)
        ensures
            r == self@.hblank_interrupt,
    {
        self.hblank_interrupt
    }

    pub fn mode(&self) -> (r: LcdControlMode)
        ensures
            r == self@.mode,
    {
        self.mode
    }

    pub fn set_mode(&mut self, mode: LcdControlMode)
        ensures
            final(self)@ == (StatView { mode, ..old(self)@ }),
    {
        self.mode = mode;
    }

    pub fn scanline_coincidence(&self) -> (r: bool)
        ensures
            r == self@.coincidence,
    {
        self.coincidence
    }

    pub fn set_scanline_coincidence(&mut self, coincidence: bool)
        ensures
            final(self)@ == (StatView { coincidence, ..old(self)@ }),
    {
        self.coincidence = coincidence;
    }
}

} // verus!
