//! The interrupt flags and their byte form: bit 0 V-blank, bit 1 LCD status,
//! bit 2 timer, bit 3 serial, bit 4 joypad; bits 7 to 5 are unused.
use crate::registers::{bit_set, bit_value};
use vstd::prelude::*;

verus! {

/// One flag per interrupt source.
#[derive(Clone, Copy, Debug, PartialEq, Eq, Structural)]
pub struct InterruptFlags {
    pub vblank: bool,
    pub lcd: bool,
    pub timer: bool,
    pub serial: bool,
    pub joypad: bool,
}

impl InterruptFlags {
    pub open spec fn byte_spec(self) -> u8 {
        (bit_value(self.vblank) + 2 * bit_value(self.lcd) + 4 * bit_value(self.timer) + 8
            * bit_value(self.serial) + 16 * bit_value(self.joypad)) as u8
    }

    pub open spec fn from_byte_spec(byte: u8) -> InterruptFlags {
        InterruptFlags {
            vblank: bit_set(byte, 0),
            lcd: bit_set(byte, 1),
            timer: bit_set(byte, 2),
            serial: bit_set(byte, 3),
            joypad: bit_set(byte, 4),
        }
    }

    /// Packs the flags into their byte form.
    pub fn to_byte(&self) -> (r: u8)
        ensures
            r == self.byte_spec(),
    {
        let mut byte: u8 = 0;
        if self.vblank {
            byte = byte + 1;
        }
        if self.lcd {
            byte = byte + 2;
        }
        if self.timer {
            byte = byte + 4;
        }
        if self.serial {
            byte = byte + 8;
        }
        if self.joypad {
            byte = byte + 16;
        }
        byte
    }

    /// Reads the flags out of bits 0 to 4 of `byte`.
    pub fn from_byte(byte: u8) -> (r: InterruptFlags)
        ensures
            r == Self::from_byte_spec(byte),
    {
        InterruptFlags {
            vblank: ((byte >> 0u8) & 1) == 1,
            lcd: ((byte >> 1u8) & 1) == 1,
            timer: ((byte >> 2u8) & 1) == 1,
            serial: ((byte >> 3u8) & 1) == 1,
            joypad: ((byte >> 4u8) & 1) == 1,
        }
    }
}

impl From<u8> for InterruptFlags {
    fn from(byte: u8) -> (r: InterruptFlags) {
        InterruptFlags::from_byte(byte)
    }
}

impl vstd::std_specs::convert::FromSpecImpl<u8> for InterruptFlags {
    open spec fn obeys_from_spec() -> bool {
        true
    }

    open spec fn from_spec(byte: u8) -> InterruptFlags {
        InterruptFlags::from_byte_spec(byte)
    }
}

impl From<InterruptFlags> for u8 {
    fn from(flags: InterruptFlags) -> (r: u8) {
        flags.to_byte()
    }
}

impl vstd::std_specs::convert::FromSpecImpl<InterruptFlags> for u8 {
    open spec fn obeys_from_spec() -> bool {
        true
    }

    open spec fn from_spec(flags: InterruptFlags) -> u8 {
        flags.byte_spec()
    }
}

/// Converting interrupt flags to a byte and back gives the same flags; the
/// three high bits of the byte are zero.
pub proof fn lemma_interrupt_flags_round_trip(f: InterruptFlags)
    ensures
        InterruptFlags::from_byte_spec(f.byte_spec()) == f,
        f.byte_spec() < 32,
{
    let v: u8 = if f.vblank { 1 } else { 0 };
    let l: u8 = if f.lcd { 1 } else { 0 };
    let t: u8 = if f.timer { 1 } else { 0 };
    let s: u8 = if f.serial { 1 } else { 0 };
    let j: u8 = if f.joypad { 1 } else { 0 };
    let b = f.byte_spec();
    assert(b == v + 2 * l + 4 * t + 8 * s + 16 * j);
    assert(((b >> 0) & 1) == v && ((b >> 1) & 1) == l && ((b >> 2) & 1) == t && ((b >> 3) & 1) == s && ((
    b >> 4) & 1) == j && b < 32) by (bit_vector)
        requires
            v <= 1 && l <= 1 && t <= 1 && s <= 1 && j <= 1,
            b == v + 2 * l + 4 * t + 8 * s + 16 * j,
    ;
}

} // verus!
