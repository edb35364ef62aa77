//! Clock-domain / speed controller: a two-state machine (single or double
//! speed) with an independent prepare-switch flag, exposed to software
//! through the KEY1 register.

use vstd::prelude::*;

verus! {

/// Console compatibility declared by the cartridge header's CGB flag.
#[derive(Clone, Copy, PartialEq, Eq, Structural, Debug)]
pub enum CgbCompatibility {
    /// Monochrome-only cartridge.
    Dmg,
    /// Runs on both monochrome and color consoles.
    CgbAndDmg,
    /// Color-console-only cartridge.
    CgbOnly,
}

impl CgbCompatibility {
    /// Decodes the header's CGB flag byte.
    pub fn from_code(code: u8) -> (r: CgbCompatibility)
        ensures
            r == spec_cgb_compatibility(code),
    {
        match code {
            0x80 => CgbCompatibility::CgbAndDmg,
            0xC0 => CgbCompatibility::CgbOnly,
            _ => CgbCompatibility::Dmg,
        }
    }
}

pub open spec fn spec_cgb_compatibility(code: u8) -> CgbCompatibility {
    match code {
        0x80 => CgbCompatibility::CgbAndDmg,
        0xC0 => CgbCompatibility::CgbOnly,
        _ => CgbCompatibility::Dmg,
    }
}

#[derive(Clone, Copy, PartialEq, Eq, Structural, Debug)]
pub enum CpuSpeedMode {
    Single,
    Double,
}

/// Records the current clock-domain mode.  The controller has no timing
/// behavior of its own: the external CPU/timer drivers consult it to decide
/// how many base clock ticks make up one CPU cycle.
pub struct CpuSpeedController {
    pub cpu_speed_mode: CpuSpeedMode,
    pub prepare_speed_switch: bool,
    pub cgb_compatibility: CgbCompatibility,
}

impl CpuSpeedController {
    pub fn new(cgb_compatibility: CgbCompatibility) -> (r: CpuSpeedController)
        ensures
            r.cpu_speed_mode == CpuSpeedMode::Single,
            !r.prepare_speed_switch,
            r.cgb_compatibility == cgb_compatibility,
    {
        CpuSpeedController {
            cpu_speed_mode: CpuSpeedMode::Single,
            prepare_speed_switch: false,
            cgb_compatibility,
        }
    }

    pub fn is_double_speed(&self) -> (r: bool)
        ensures
            r == (self.cpu_speed_mode == CpuSpeedMode::Double),
    {
        matches!(self.cpu_speed_mode, CpuSpeedMode::Double)
    }

    pub fn set_console_compatibility(&mut self, cgb_compatibility: CgbCompatibility)
        ensures
            final(self).cgb_compatibility == cgb_compatibility,
            final(self).cpu_speed_mode == old(self).cpu_speed_mode,
            final(self).prepare_speed_switch == old(self).prepare_speed_switch,
    {
        self.cgb_compatibility = cgb_compatibility;
    }

    pub fn set_prepare_speed_switch(&mut self, set: bool)
        ensures
            final(self).prepare_speed_switch == set,
            final(self).cpu_speed_mode == old(self).cpu_speed_mode,
            final(self).cgb_compatibility == old(self).cgb_compatibility,
    {
        self.prepare_speed_switch = set;
    }

    pub fn is_speed_switch_prepared(&self) -> (r: bool)
        ensures
            r == self.prepare_speed_switch,
    {
        self.prepare_speed_switch
    }

    /// The external trigger: toggles the speed mode.  Only called once a
    /// register write has set the prepare flag; the flag is consumed.
    pub fn switch_speed(&mut self)
        requires
            old(self).prepare_speed_switch,
        ensures
            !final(self).prepare_speed_switch,
            final(self).cpu_speed_mode == spec_toggled(old(self).cpu_speed_mode),
            final(self).cgb_compatibility == old(self).cgb_compatibility,
    {
        self.prepare_speed_switch = false;
        self.cpu_speed_mode = match self.cpu_speed_mode {
            CpuSpeedMode::Single => CpuSpeedMode::Double,
            CpuSpeedMode::Double => CpuSpeedMode::Single,
        };
    }

    /// KEY1: bit 7 is the current mode, bit 0 the prepare flag, bits 1-6
    /// read back as ones.
    pub fn read_key1(&self) -> (r: u8)
        ensures
            r == spec_key1(*self),
    {
        let mode_bit: u8 = if self.is_double_speed() { 0x80 } else { 0x00 };
        let prepare_bit: u8 = if self.prepare_speed_switch { 0x01 } else { 0x00 };
        mode_bit | prepare_bit | 0x7E
    }
}

pub open spec fn spec_toggled(mode: CpuSpeedMode) -> CpuSpeedMode {
    match mode {
        CpuSpeedMode::Single => CpuSpeedMode::Double,
        CpuSpeedMode::Double => CpuSpeedMode::Single,
    }
}

pub open spec fn spec_key1(c: CpuSpeedController) -> u8 {
    (if c.cpu_speed_mode == CpuSpeedMode::Double {
        0x80u8
    } else {
        0x00u8
    }) | (if c.prepare_speed_switch {
        0x01u8
    } else {
        0x00u8
    }) | 0x7Eu8
}

} // verus!
