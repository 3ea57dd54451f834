//! The register file: seven 8-bit registers, the flags register, the register
//! pairs built over them, and the bit-index type used by bit instructions.
use crate::instructions::parameter::{StackTarget, TargetRegister16, TargetRegister8};
use vstd::prelude::*;

verus! {

/// 1 when `b` holds, 0 otherwise.
pub open spec fn bit_value(b: bool) -> int {
    if b {
        1
    } else {
        0
    }
}

/// Whether bit `k` (0 = least significant) of `x` is set.
pub open spec fn bit_set(x: u8, k: u8) -> bool {
    ((x >> k) & 1) == 1
}

/// The condition codes of the CPU, stored in the four high bits of the F register.
#[derive(Clone, Copy, Debug, PartialEq, Eq, Structural)]
pub struct FlagsRegister {
    pub zero: bool,
    pub subtract: bool,
    /// Set when an operation carried out of (or borrowed into) the low nibble.
    pub half_carry: bool,
    pub carry: bool,
}

impl FlagsRegister {
    /// Byte form: zero at bit 7, subtract at bit 6, half-carry at bit 5, carry at bit 4.
    pub open spec fn byte_spec(self) -> u8 {
        (128 * bit_value(self.zero) + 64 * bit_value(self.subtract) + 32 * bit_value(
            self.half_carry,
        ) + 16 * bit_value(self.carry)) as u8
    }

    /// The flags held in bits 7 to 4 of `byte`; the low nibble is ignored.
    pub open spec fn from_byte_spec(byte: u8) -> FlagsRegister {
        FlagsRegister {
            zero: bit_set(byte, 7),
            subtract: bit_set(byte, 6),
            half_carry: bit_set(byte, 5),
            carry: bit_set(byte, 4),
        }
    }

    /// All four flags cleared.
    pub fn new() -> (r: FlagsRegister)
        ensures
            r == (FlagsRegister { zero: false, subtract: false, half_carry: false, carry: false }),
    {
        FlagsRegister { zero: false, subtract: false, half_carry: false, carry: false }
    }

    /// Packs the flags into their byte form.
    pub fn to_byte(&self) -> (r: u8)
        ensures
            r == self.byte_spec(),
    {
        let mut byte: u8 = 0;
        if self.zero {
            byte = byte + 0x80;
        }
        if self.subtract {
            byte = byte + 0x40;
        }
        if self.half_carry {
            byte = byte + 0x20;
        }
        if self.carry {
            byte = byte + 0x10;
        }
        byte
    }

    /// Reads the flags out of bits 7 to 4 of `byte`.
    pub fn from_byte(byte: u8) -> (r: FlagsRegister)
        ensures
            r == Self::from_byte_spec(byte),
    {
        FlagsRegister {
            zero: ((byte >> 7u8) & 1) == 1,
            subtract: ((byte >> 6u8) & 1) == 1,
            half_carry: ((byte >> 5u8) & 1) == 1,
            carry: ((byte >> 4u8) & 1) == 1,
        }
    }
}

impl Default for FlagsRegister {
    fn default() -> (r: FlagsRegister)
        ensures
            r == (FlagsRegister { zero: false, subtract: false, half_carry: false, carry: false }),
    {
        FlagsRegister::new()
    }
}

impl From<FlagsRegister> for u8 {
    fn from(flags: FlagsRegister) -> (r: u8) {
        flags.to_byte()
    }
}

impl vstd::std_specs::convert::FromSpecImpl<FlagsRegister> for u8 {
    open spec fn obeys_from_spec() -> bool {
        true
    }

    open spec fn from_spec(flags: FlagsRegister) -> u8 {
        flags.byte_spec()
    }
}

impl From<u8> for FlagsRegister {
    fn from(byte: u8) -> (r: FlagsRegister) {
        FlagsRegister::from_byte(byte)
    }
}

impl vstd::std_specs::convert::FromSpecImpl<u8> for FlagsRegister {
    open spec fn obeys_from_spec() -> bool {
        true
    }

    open spec fn from_spec(byte: u8) -> FlagsRegister {
        FlagsRegister::from_byte_spec(byte)
    }
}

/// The four flag bits land where they belong, whatever the flags are.
proof fn lemma_flag_bits(z: bool, n: bool, h: bool, c: bool, b: u8)
    requires
        b as int == 128 * bit_value(z) + 64 * bit_value(n) + 32 * bit_value(h) + 16 * bit_value(c),
    ensures
        bit_set(b, 7) == z,
        bit_set(b, 6) == n,
        bit_set(b, 5) == h,
        bit_set(b, 4) == c,
        b & 0x0F == 0,
{
    let zb: u8 = if z { 1 } else { 0 };
    let nb: u8 = if n { 1 } else { 0 };
    let hb: u8 = if h { 1 } else { 0 };
    let cb: u8 = if c { 1 } else { 0 };
    assert(b == zb * 128 + nb * 64 + hb * 32 + cb * 16);
    assert(((b >> 7) & 1) == zb && ((b >> 6) & 1) == nb && ((b >> 5) & 1) == hb && ((b >> 4) & 1)
        == cb && b & 0x0F == 0) by (bit_vector)
        requires
            zb <= 1 && nb <= 1 && hb <= 1 && cb <= 1,
            b == zb * 128 + nb * 64 + hb * 32 + cb * 16,
    ;
}

/// Converting flags to a byte and back gives the same flags, and the byte's low
/// nibble is always zero.
pub proof fn lemma_flags_round_trip(f: FlagsRegister)
    ensures
        FlagsRegister::from_byte_spec(f.byte_spec()) == f,
        f.byte_spec() & 0x0F == 0,
{
    lemma_flag_bits(f.zero, f.subtract, f.half_carry, f.carry, f.byte_spec());
}

/// Converting a byte to flags and back keeps its high nibble and clears its low one.
pub proof fn lemma_byte_round_trip(b: u8)
    ensures
        FlagsRegister::from_byte_spec(b).byte_spec() == b & 0xF0,
{
    let zb: u8 = (b >> 7) & 1;
    let nb: u8 = (b >> 6) & 1;
    let hb: u8 = (b >> 5) & 1;
    let cb: u8 = (b >> 4) & 1;
    assert(zb <= 1 && nb <= 1 && hb <= 1 && cb <= 1 && b & 0xF0 == zb * 128 + nb * 64 + hb * 32
        + cb * 16) by (bit_vector)
        requires
            zb == (b >> 7) & 1 && nb == (b >> 6) & 1 && hb == (b >> 5) & 1 && cb == (b >> 4) & 1,
    ;
}

/// The value of a register pair whose high half is `high` and low half is `low`.
pub open spec fn pair_value(high: u8, low: u8) -> u16 {
    (high * 256 + low) as u16
}

/// The high half of a 16-bit value.
pub open spec fn high_byte(v: u16) -> u8 {
    (v / 256) as u8
}

/// The low half of a 16-bit value.
pub open spec fn low_byte(v: u16) -> u8 {
    (v % 256) as u8
}

/// Joins two bytes into one 16-bit value, `high` first.
pub fn join_bytes(high: u8, low: u8) -> (r: u16)
    ensures
        r == pair_value(high, low),
{
    (high as u16) * 256 + (low as u16)
}

/// Splits a 16-bit value into its high and low bytes.
pub fn split_word(v: u16) -> (r: (u8, u8))
    ensures
        r == (high_byte(v), low_byte(v)),
{
    ((v / 256) as u8, (v % 256) as u8)
}

/// The register file of the CPU. BC, DE, HL and AF are views over two of its
/// 8-bit cells, high byte first.
#[derive(Clone, Copy, Debug, PartialEq, Eq, Structural)]
pub struct Registers {
    pub a: u8,
    pub b: u8,
    pub c: u8,
    pub d: u8,
    pub e: u8,
    pub f: FlagsRegister,
    pub h: u8,
    pub l: u8,
}

impl Registers {
    /// The value of an 8-bit register.
    pub open spec fn r8(self, target: TargetRegister8) -> u8 {
        match target {
            TargetRegister8::A => self.a,
            TargetRegister8::B => self.b,
            TargetRegister8::C => self.c,
            TargetRegister8::D => self.d,
            TargetRegister8::E => self.e,
            TargetRegister8::H => self.h,
            TargetRegister8::L => self.l,
        }
    }

    /// The register file with one 8-bit register replaced by `value`.
    pub open spec fn with_r8(self, target: TargetRegister8, value: u8) -> Registers {
        match target {
            TargetRegister8::A => Registers { a: value, ..self },
            TargetRegister8::B => Registers { b: value, ..self },
            TargetRegister8::C => Registers { c: value, ..self },
            TargetRegister8::D => Registers { d: value, ..self },
            TargetRegister8::E => Registers { e: value, ..self },
            TargetRegister8::H => Registers { h: value, ..self },
            TargetRegister8::L => Registers { l: value, ..self },
        }
    }

    pub open spec fn bc(self) -> u16 {
        pair_value(self.b, self.c)
    }

    pub open spec fn de(self) -> u16 {
        pair_value(self.d, self.e)
    }

    pub open spec fn hl(self) -> u16 {
        pair_value(self.h, self.l)
    }

    pub open spec fn af(self) -> u16 {
        pair_value(self.a, self.f.byte_spec())
    }

    /// The value of a register pair used by arithmetic.
    pub open spec fn r16(self, target: TargetRegister16) -> u16 {
        match target {
            TargetRegister16::BC => self.bc(),
            TargetRegister16::DE => self.de(),
            TargetRegister16::HL => self.hl(),
        }
    }

    /// The value of a register pair used by the stack.
    pub open spec fn stack_pair(self, target: StackTarget) -> u16 {
        match target {
            StackTarget::AF => self.af(),
            StackTarget::BC => self.bc(),
            StackTarget::DE => self.de(),
            StackTarget::HL => self.hl(),
        }
    }

    /// The register file with HL set to `value`.
    pub open spec fn with_hl(self, value: u16) -> Registers {
        Registers { h: high_byte(value), l: low_byte(value), ..self }
    }

    /// The register file with a stack pair set to `value`.
    pub open spec fn with_stack_pair(self, target: StackTarget, value: u16) -> Registers {
        match target {
            StackTarget::AF => Registers {
                a: high_byte(value),
                f: FlagsRegister::from_byte_spec(low_byte(value)),
                ..self
            },
            StackTarget::BC => Registers { b: high_byte(value), c: low_byte(value), ..self },
            StackTarget::DE => Registers { d: high_byte(value), e: low_byte(value), ..self },
            StackTarget::HL => self.with_hl(value),
        }
    }

    /// All registers zero and all flags cleared.
    pub fn new() -> (r: Registers)
        ensures
            r.a == 0 && r.b == 0 && r.c == 0 && r.d == 0 && r.e == 0 && r.h == 0 && r.l == 0,
            r.f == (FlagsRegister { zero: false, subtract: false, half_carry: false, carry: false }),
    {
        Registers { a: 0, b: 0, c: 0, d: 0, e: 0, f: FlagsRegister::new(), h: 0, l: 0 }
    }

    /// Reads an 8-bit register.
    pub fn get_r8(&self, target: TargetRegister8) -> (r: u8)
        ensures
            r == self.r8(target),
    {
        match target {
            TargetRegister8::A => self.a,
            TargetRegister8::B => self.b,
            TargetRegister8::C => self.c,
            TargetRegister8::D => self.d,
            TargetRegister8::E => self.e,
            TargetRegister8::H => self.h,
            TargetRegister8::L => self.l,
        }
    }

    /// Writes an 8-bit register.
    pub fn set_r8(&mut self, target: TargetRegister8, value: u8)
        ensures
            *final(self) == old(self).with_r8(target, value),
    {
        match target {
            TargetRegister8::A => self.a = value,
            TargetRegister8::B => self.b = value,
            TargetRegister8::C => self.c = value,
            TargetRegister8::D => self.d = value,
            TargetRegister8::E => self.e = value,
            TargetRegister8::H => self.h = value,
            TargetRegister8::L => self.l = value,
        }
    }

    pub fn get_bc(&self) -> (r: u16)
        ensures
            r == self.bc(),
    {
        join_bytes(self.b, self.c)
    }

    pub fn get_de(&self) -> (r: u16)
        ensures
            r == self.de(),
    {
        join_bytes(self.d, self.e)
    }

    pub fn get_hl(&self) -> (r: u16)
        ensures
            r == self.hl(),
    {
        join_bytes(self.h, self.l)
    }

    /// AF pairs A with the byte form of the flags.
    pub fn get_af(&self) -> (r: u16)
        ensures
            r == self.af(),
    {
        join_bytes(self.a, self.f.to_byte())
    }

    pub fn set_bc(&mut self, value: u16)
        ensures
            *final(self) == (Registers { b: high_byte(value), c: low_byte(value), ..*old(self) }),
    {
        let (high, low) = split_word(value);
        self.b = high;
        self.c = low;
    }

    pub fn set_de(&mut self, value: u16)
        ensures
            *final(self) == (Registers { d: high_byte(value), e: low_byte(value), ..*old(self) }),
    {
        let (high, low) = split_word(value);
        self.d = high;
        self.e = low;
    }

    pub fn set_hl(&mut self, value: u16)
        ensures
            *final(self) == old(self).with_hl(value),
    {
        let (high, low) = split_word(value);
        self.h = high;
        self.l = low;
    }

    /// Sets A from the high byte and the flags from the low byte; the low
    /// nibble of the low byte is dropped.
    pub fn set_af(&mut self, value: u16)
        ensures
            *final(self) == (Registers {
                a: high_byte(value),
                f: FlagsRegister::from_byte_spec(low_byte(value)),
                ..*old(self)
            }),
    {
        let (high, low) = split_word(value);
        self.a = high;
        self.f = FlagsRegister::from_byte(low);
    }

    /// Reads a register pair used by arithmetic.
    pub fn get_r16(&self, target: TargetRegister16) -> (r: u16)
        ensures
            r == self.r16(target),
    {
        match target {
            TargetRegister16::BC => self.get_bc(),
            TargetRegister16::DE => self.get_de(),
            TargetRegister16::HL => self.get_hl(),
        }
    }

    /// Reads a register pair used by the stack.
    pub fn get_stack_pair(&self, target: StackTarget) -> (r: u16)
        ensures
            r == self.stack_pair(target),
    {
        match target {
            StackTarget::AF => self.get_af(),
            StackTarget::BC => self.get_bc(),
            StackTarget::DE => self.get_de(),
            StackTarget::HL => self.get_hl(),
        }
    }

    /// Writes a register pair used by the stack.
    pub fn set_stack_pair(&mut self, target: StackTarget, value: u16)
        ensures
            *final(self) == old(self).with_stack_pair(target, value),
    {
        match target {
            StackTarget::AF => self.set_af(value),
            StackTarget::BC => self.set_bc(value),
            StackTarget::DE => self.set_de(value),
            StackTarget::HL => self.set_hl(value),
        }
    }
}

impl Default for Registers {
    fn default() -> (r: Registers)
        ensures
            r == Registers::new_spec(),
    {
        Registers::new()
    }
}

impl Registers {
    /// The register file a CPU starts with.
    pub open spec fn new_spec() -> Registers {
        Registers {
            a: 0,
            b: 0,
            c: 0,
            d: 0,
            e: 0,
            f: FlagsRegister { zero: false, subtract: false, half_carry: false, carry: false },
            h: 0,
            l: 0,
        }
    }
}

/// Splitting a 16-bit value into bytes and joining them again gives the value back.
pub proof fn lemma_split_join(v: u16)
    ensures
        pair_value(high_byte(v), low_byte(v)) == v,
{
}

/// Writing a register pair and reading it back gives the value written, for BC,
/// DE and HL, and for AF when the low nibble of the value is zero (the flags
/// byte keeps only its high nibble).
pub proof fn lemma_pair_round_trip(regs: Registers, target: StackTarget, v: u16)
    requires
        target == StackTarget::AF ==> v % 16 == 0,
    ensures
        regs.with_stack_pair(target, v).stack_pair(target) == v,
{
    lemma_split_join(v);
    if target == StackTarget::AF {
        let low = low_byte(v);
        lemma_byte_round_trip(low);
        assert(low & 0xF0 == low) by (bit_vector)
            requires
                low % 16 == 0,
        ;
    }
}

/// Index of one of the eight bits of a register: always in 0..=7.
#[derive(Clone, Copy, Debug, PartialEq, Eq, Structural)]
pub struct U3(u8);

impl U3 {
    pub const MAX: u8 = 0b111;

    #[verifier::type_invariant]
    spec fn in_range(self) -> bool {
        self.0 <= 7
    }

    /// The index as a number.
    pub closed spec fn index(self) -> u8 {
        self.0
    }

    /// An index from the low three bits of `value`: larger values wrap round
    /// rather than fail.
    pub fn wrap(value: u8) -> (r: U3)
        ensures
            r.index() == value % 8,
    {
        let v = value & Self::MAX;
        assert(value & 7 == value % 8) by (bit_vector);
        U3(v)
    }

    /// The index as a number.
    pub fn value(&self) -> (r: u8)
        ensures
            r == self.index(),
            r <= 7,
    {
        proof {
            use_type_invariant(self);
        }
        self.0
    }

    /// Two indices with the same number are the same index.
    pub proof fn lemma_index_determines(a: U3, b: U3)
        requires
            a.index() == b.index(),
        ensures
            a == b,
    {
    }
}

} // verus!
