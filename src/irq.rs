use vstd::prelude::*;
use crate::error::AyyError;

verus! {

/// IE / IF bit of the vertical-blank interrupt.
pub const VBLANK_BIT: u8 = 0x01;
/// IE / IF bit of the LCD status interrupt.
pub const STAT_BIT: u8 = 0x02;
/// IE / IF bit of the timer interrupt.
pub const TIMER_BIT: u8 = 0x04;
/// IE / IF bit of the serial interrupt.
pub const SERIAL_BIT: u8 = 0x08;
/// IE / IF bit of the joypad interrupt.
pub const JOYPAD_BIT: u8 = 0x10;

/// The interrupt master enable, with the one-instruction delay that `EI` arms.
#[derive(Debug, Clone, Copy, PartialEq, Eq, Structural)]
pub struct Ime {
    pub enabled: bool,
    pub enable_pending: bool,
}

/// Interrupt sources, highest priority first.
#[derive(Debug, Clone, Copy, PartialEq, Eq, Structural)]
pub enum Vector {
    VBlank,
    Stat,
    Timer,
    Serial,
    Joypad,
}

/// The highest-priority source among the bits of `pending`, if any of the five is set.
pub open spec fn highest_priority(pending: u8) -> Option<Vector> {
    if pending & VBLANK_BIT != 0 {
        Some(Vector::VBlank)
    } else if pending & STAT_BIT != 0 {
        Some(Vector::Stat)
    } else if pending & TIMER_BIT != 0 {
        Some(Vector::Timer)
    } else if pending & SERIAL_BIT != 0 {
        Some(Vector::Serial)
    } else if pending & JOYPAD_BIT != 0 {
        Some(Vector::Joypad)
    } else {
        None
    }
}

impl Vector {
    pub open spec fn address_spec(self) -> u16 {
        match self {
            Vector::VBlank => 0x40,
            Vector::Stat => 0x48,
            Vector::Timer => 0x50,
            Vector::Serial => 0x58,
            Vector::Joypad => 0x60,
        }
    }

    pub open spec fn bit_spec(self) -> u8 {
        match self {
            Vector::VBlank => VBLANK_BIT,
            Vector::Stat => STAT_BIT,
            Vector::Timer => TIMER_BIT,
            Vector::Serial => SERIAL_BIT,
            Vector::Joypad => JOYPAD_BIT,
        }
    }

    /// The vector to service for the given IE and IF registers: the lowest bit set in both.
    pub fn from_flags(interrupt_enable: u8, interrupt_flags: u8) -> (r: Result<Vector, AyyError>)
        ensures
            highest_priority(interrupt_enable & interrupt_flags) matches Some(v) ==> r == Ok::<
                Vector,
                AyyError,
            >(v),
            highest_priority(interrupt_enable & interrupt_flags) is None ==> r == Err::<
                Vector,
                AyyError,
            >(AyyError::UnknownIrqVector { vector: interrupt_flags }),
    {
        let pending = interrupt_enable & interrupt_flags;
        if pending & VBLANK_BIT != 0 {
            Ok(Vector::VBlank)
        } else if pending & STAT_BIT != 0 {
            Ok(Vector::Stat)
        } else if pending & TIMER_BIT != 0 {
            Ok(Vector::Timer)
        } else if pending & SERIAL_BIT != 0 {
            Ok(Vector::Serial)
        } else if pending & JOYPAD_BIT != 0 {
            Ok(Vector::Joypad)
        } else {
            Err(AyyError::UnknownIrqVector { vector: interrupt_flags })
        }
    }

    pub fn to_address(&self) -> (r: u16)
        ensures
            r == self.address_spec(),
    {
        match self {
            Vector::VBlank => 0x40,
            Vector::Stat => 0x48,
            Vector::Timer => 0x50,
            Vector::Serial => 0x58,
            Vector::Joypad => 0x60,
        }
    }

    /// The IE / IF bit of this source.
    pub fn to_bit(&self) -> (r: u8)
        ensures
            r == self.bit_spec(),
    {
        match self {
            Vector::VBlank => VBLANK_BIT,
            Vector::Stat => STAT_BIT,
            Vector::Timer => TIMER_BIT,
            Vector::Serial => SERIAL_BIT,
            Vector::Joypad => JOYPAD_BIT,
        }
    }
}

} // verus!
