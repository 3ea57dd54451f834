//! The instruction set and the two opcode tables that decode it.
pub mod parameter;

use crate::registers::U3;
use parameter::{
    JumpTest, LoadByteSource, LoadByteTarget, LoadType, StackTarget, TargetRegister16,
    TargetRegister8,
};
use vstd::prelude::*;

verus! {

/// The instructions the core can execute.
#[derive(Clone, Copy, Debug, PartialEq, Eq, Structural)]
pub enum Instruction {
    /// Add an 8-bit register to A.
    Add(TargetRegister8),
    /// Add a register pair to HL.
    AddHl(TargetRegister16),
    /// Add an 8-bit register and the carry flag to A.
    Adc(TargetRegister8),
    /// Subtract an 8-bit register from A.
    Sub(TargetRegister8),
    /// Subtract an 8-bit register and the carry flag from A.
    Sbc(TargetRegister8),
    /// Subtract an 8-bit register from A for the flags only.
    Cp(TargetRegister8),
    /// Bitwise AND of A and an 8-bit register, into A.
    And(TargetRegister8),
    /// Bitwise OR of A and an 8-bit register, into A.
    Or(TargetRegister8),
    /// Bitwise XOR of A and an 8-bit register, into A.
    Xor(TargetRegister8),
    /// Increment an 8-bit register.
    Inc(TargetRegister8),
    /// Decrement an 8-bit register.
    Dec(TargetRegister8),
    /// Invert the carry flag.
    Ccf,
    /// Set the carry flag.
    Scf,
    /// Bitwise NOT of A.
    Cpl,
    /// Test one bit of an 8-bit register.
    Bit(U3, TargetRegister8),
    /// Clear one bit of an 8-bit register.
    Res(U3, TargetRegister8),
    /// Set one bit of an 8-bit register.
    SetBit(U3, TargetRegister8),
    /// Rotate right through the carry flag.
    Rr(TargetRegister8),
    /// Rotate left through the carry flag.
    Rl(TargetRegister8),
    /// Rotate right, bit 0 going round to bit 7.
    Rrc(TargetRegister8),
    /// Rotate left, bit 7 going to the carry flag.
    Rlc(TargetRegister8),
    /// `Rr` on A.
    Rra,
    /// `Rl` on A.
    Rla,
    /// `Rrc` on A.
    Rrca,
    /// `Rlc` on A.
    Rlca,
    /// Shift right logically.
    Srl(TargetRegister8),
    /// Shift right arithmetically.
    Sra(TargetRegister8),
    /// Shift left arithmetically.
    Sla(TargetRegister8),
    /// Swap the two nibbles.
    Swap(TargetRegister8),
    /// Jump to the address after the opcode if the condition holds.
    Jp(JumpTest),
    /// Load a value into a register or memory.
    Ld(LoadType),
    /// Push a register pair on the stack.
    Push(StackTarget),
    /// Pop a register pair off the stack.
    Pop(StackTarget),
    /// Push the address of the next instruction and jump, if the condition holds.
    Call(JumpTest),
    /// Pop the return address and jump to it, if the condition holds.
    Ret(JumpTest),
    /// Do nothing.
    Nop,
    /// Stop executing until the CPU is woken.
    Halt,
}

/// The byte that announces an opcode of the extended table.
pub const PREFIX_BYTE: u8 = 0xCB;

/// The 3-bit code of an 8-bit register in an opcode (6 stands for memory at HL).
pub open spec fn register_code(r: TargetRegister8) -> u8 {
    match r {
        TargetRegister8::B => 0,
        TargetRegister8::C => 1,
        TargetRegister8::D => 2,
        TargetRegister8::E => 3,
        TargetRegister8::H => 4,
        TargetRegister8::L => 5,
        TargetRegister8::A => 7,
    }
}

pub open spec fn load_target_code(t: LoadByteTarget) -> u8 {
    match t {
        LoadByteTarget::B => 0,
        LoadByteTarget::C => 1,
        LoadByteTarget::D => 2,
        LoadByteTarget::E => 3,
        LoadByteTarget::H => 4,
        LoadByteTarget::L => 5,
        LoadByteTarget::Hli => 6,
        LoadByteTarget::A => 7,
    }
}

/// The 3-bit code of a load source; the immediate byte has none.
pub open spec fn load_source_code(s: LoadByteSource) -> u8 {
    match s {
        LoadByteSource::B => 0,
        LoadByteSource::C => 1,
        LoadByteSource::D => 2,
        LoadByteSource::E => 3,
        LoadByteSource::H => 4,
        LoadByteSource::L => 5,
        LoadByteSource::Hli => 6,
        LoadByteSource::A => 7,
        LoadByteSource::D8 => 8,
    }
}

/// The 2-bit code of a condition (`Always` has its own opcodes).
pub open spec fn condition_code(c: JumpTest) -> u8 {
    match c {
        JumpTest::NotZero => 0,
        JumpTest::Zero => 1,
        JumpTest::NotCarry => 2,
        JumpTest::Carry => 3,
        JumpTest::Always => 4,
    }
}

pub open spec fn stack_code(s: StackTarget) -> u8 {
    match s {
        StackTarget::BC => 0,
        StackTarget::DE => 1,
        StackTarget::HL => 2,
        StackTarget::AF => 3,
    }
}

pub open spec fn pair_code(p: TargetRegister16) -> u8 {
    match p {
        TargetRegister16::BC => 0,
        TargetRegister16::DE => 1,
        TargetRegister16::HL => 2,
    }
}

/// Whether `byte` is the opcode of `i` in the extended table: bits 7-6 select
/// the group, bits 5-3 the operation or bit index, bits 2-0 the register.
pub open spec fn encodes_prefixed(byte: u8, i: Instruction) -> bool {
    let group = byte / 64;
    let op = (byte / 8) % 8;
    let reg = byte % 8;
    match i {
        Instruction::Rlc(r) => group == 0 && op == 0 && reg == register_code(r),
        Instruction::Rrc(r) => group == 0 && op == 1 && reg == register_code(r),
        Instruction::Rl(r) => group == 0 && op == 2 && reg == register_code(r),
        Instruction::Rr(r) => group == 0 && op == 3 && reg == register_code(r),
        Instruction::Sla(r) => group == 0 && op == 4 && reg == register_code(r),
        Instruction::Sra(r) => group == 0 && op == 5 && reg == register_code(r),
        Instruction::Swap(r) => group == 0 && op == 6 && reg == register_code(r),
        Instruction::Srl(r) => group == 0 && op == 7 && reg == register_code(r),
        Instruction::Bit(n, r) => group == 1 && op == n.index() && reg == register_code(r),
        Instruction::Res(n, r) => group == 2 && op == n.index() && reg == register_code(r),
        Instruction::SetBit(n, r) => group == 3 && op == n.index() && reg == register_code(r),
        _ => false,
    }
}

/// Whether `byte` is the opcode of `i` in the primary table.
pub open spec fn encodes_primary(byte: u8, i: Instruction) -> bool {
    let group = byte / 64;
    let op = (byte / 8) % 8;
    let reg = byte % 8;
    match i {
        Instruction::Add(r) => group == 2 && op == 0 && reg == register_code(r),
        Instruction::Adc(r) => group == 2 && op == 1 && reg == register_code(r),
        Instruction::Sub(r) => group == 2 && op == 2 && reg == register_code(r),
        Instruction::Sbc(r) => group == 2 && op == 3 && reg == register_code(r),
        Instruction::And(r) => group == 2 && op == 4 && reg == register_code(r),
        Instruction::Xor(r) => group == 2 && op == 5 && reg == register_code(r),
        Instruction::Or(r) => group == 2 && op == 6 && reg == register_code(r),
        Instruction::Cp(r) => group == 2 && op == 7 && reg == register_code(r),
        Instruction::Inc(r) => group == 0 && reg == 4 && op == register_code(r),
        Instruction::Dec(r) => group == 0 && reg == 5 && op == register_code(r),
        Instruction::AddHl(p) => byte == 0x09 + 16 * pair_code(p),
        Instruction::Ld(LoadType::Byte(t, LoadByteSource::D8)) => group == 0 && reg == 6 && op
            == load_target_code(t),
        Instruction::Ld(LoadType::Byte(t, s)) => group == 1 && byte != 0x76 && op
            == load_target_code(t) && reg == load_source_code(s),
        Instruction::Ld(LoadType::Word) => byte == 0x01 || byte == 0x11 || byte == 0x21 || byte
            == 0x31,
        Instruction::Ld(LoadType::IndirectFromA) => byte == 0x02 || byte == 0x12,
        Instruction::Ld(LoadType::AFromIndirect) => byte == 0x0A || byte == 0x1A,
        Instruction::Ld(LoadType::ByteAddressFromA) => byte == 0xE0,
        Instruction::Ld(LoadType::AFromByteAddress) => byte == 0xF0,
        Instruction::Jp(c) => if c == JumpTest::Always {
            byte == 0xC3
        } else {
            byte == 0xC2 + 8 * condition_code(c)
        },
        Instruction::Call(c) => if c == JumpTest::Always {
            byte == 0xCD
        } else {
            byte == 0xC4 + 8 * condition_code(c)
        },
        Instruction::Ret(c) => if c == JumpTest::Always {
            byte == 0xC9
        } else {
            byte == 0xC0 + 8 * condition_code(c)
        },
        Instruction::Push(s) => byte == 0xC5 + 16 * stack_code(s),
        Instruction::Pop(s) => byte == 0xC1 + 16 * stack_code(s),
        Instruction::Rlca => byte == 0x07,
        Instruction::Rrca => byte == 0x0F,
        Instruction::Rla => byte == 0x17,
        Instruction::Rra => byte == 0x1F,
        Instruction::Cpl => byte == 0x2F,
        Instruction::Scf => byte == 0x37,
        Instruction::Ccf => byte == 0x3F,
        Instruction::Nop => byte == 0x00,
        Instruction::Halt => byte == 0x76,
        _ => false,
    }
}

/// Whether `byte` is the opcode of `i` in the table that `prefixed` selects.
pub open spec fn encodes(byte: u8, prefixed: bool, i: Instruction) -> bool {
    if prefixed {
        encodes_prefixed(byte, i)
    } else {
        encodes_primary(byte, i)
    }
}

/// The register with opcode code `code`; code 6 names memory at HL, which is
/// not a register.
fn register_from_code(code: u8) -> (r: Option<TargetRegister8>)
    requires
        code < 8,
    ensures
        match r {
            Some(t) => register_code(t) == code,
            None => code == 6,
        },
{
    match code {
        0 => Some(TargetRegister8::B),
        1 => Some(TargetRegister8::C),
        2 => Some(TargetRegister8::D),
        3 => Some(TargetRegister8::E),
        4 => Some(TargetRegister8::H),
        5 => Some(TargetRegister8::L),
        6 => None,
        _ => Some(TargetRegister8::A),
    }
}

fn load_target_from_code(code: u8) -> (r: LoadByteTarget)
    requires
        code < 8,
    ensures
        load_target_code(r) == code,
{
    match code {
        0 => LoadByteTarget::B,
        1 => LoadByteTarget::C,
        2 => LoadByteTarget::D,
        3 => LoadByteTarget::E,
        4 => LoadByteTarget::H,
        5 => LoadByteTarget::L,
        6 => LoadByteTarget::Hli,
        _ => LoadByteTarget::A,
    }
}

fn load_source_from_code(code: u8) -> (r: LoadByteSource)
    requires
        code < 8,
    ensures
        load_source_code(r) == code,
{
    match code {
        0 => LoadByteSource::B,
        1 => LoadByteSource::C,
        2 => LoadByteSource::D,
        3 => LoadByteSource::E,
        4 => LoadByteSource::H,
        5 => LoadByteSource::L,
        6 => LoadByteSource::Hli,
        _ => LoadByteSource::A,
    }
}

/// Decodes an opcode of the extended table. The opcodes whose register code
/// names memory at HL have no instruction here.
fn decode_prefixed(byte: u8) -> (r: Option<Instruction>)
    ensures
        match r {
            Some(i) => encodes_prefixed(byte, i),
            None => forall|i: Instruction| !encodes_prefixed(byte, i),
        },
{
    let group = byte / 64;
    let op = (byte / 8) % 8;
    let target = match register_from_code(byte % 8) {
        Some(t) => t,
        None => {
            return None;
        },
    };
    if group == 0 {
        Some(
            match op {
                0 => Instruction::Rlc(target),
                1 => Instruction::Rrc(target),
                2 => Instruction::Rl(target),
                3 => Instruction::Rr(target),
                4 => Instruction::Sla(target),
                5 => Instruction::Sra(target),
                6 => Instruction::Swap(target),
                _ => Instruction::Srl(target),
            },
        )
    } else {
        let index = U3::wrap(op);
        if group == 1 {
            Some(Instruction::Bit(index, target))
        } else if group == 2 {
            Some(Instruction::Res(index, target))
        } else {
            Some(Instruction::SetBit(index, target))
        }
    }
}

/// Decodes an opcode of the primary table. Opcodes of instructions that this
/// core does not have give `None`.
fn decode_primary(byte: u8) -> (r: Option<Instruction>)
    ensures
        match r {
            Some(i) => encodes_primary(byte, i),
            None => forall|i: Instruction| !encodes_primary(byte, i),
        },
{
    let group = byte / 64;
    let op = (byte / 8) % 8;
    let code = byte % 8;
    if group == 1 {
        if byte == 0x76 {
            Some(Instruction::Halt)
        } else {
            Some(
                Instruction::Ld(
                    LoadType::Byte(load_target_from_code(op), load_source_from_code(code)),
                ),
            )
        }
    } else if group == 2 {
        match register_from_code(code) {
            Some(r) => Some(
                match op {
                    0 => Instruction::Add(r),
                    1 => Instruction::Adc(r),
                    2 => Instruction::Sub(r),
                    3 => Instruction::Sbc(r),
                    4 => Instruction::And(r),
                    5 => Instruction::Xor(r),
                    6 => Instruction::Or(r),
                    _ => Instruction::Cp(r),
                },
            ),
            None => None,
        }
    } else if group == 0 && code == 4 {
        match register_from_code(op) {
            Some(r) => Some(Instruction::Inc(r)),
            None => None,
        }
    } else if group == 0 && code == 5 {
        match register_from_code(op) {
            Some(r) => Some(Instruction::Dec(r)),
            None => None,
        }
    } else if group == 0 && code == 6 {
        Some(Instruction::Ld(LoadType::Byte(load_target_from_code(op), LoadByteSource::D8)))
    } else {
        match byte {
            0x00 => Some(Instruction::Nop),
            0x01 | 0x11 | 0x21 | 0x31 => Some(Instruction::Ld(LoadType::Word)),
            0x02 | 0x12 => Some(Instruction::Ld(LoadType::IndirectFromA)),
            0x0A | 0x1A => Some(Instruction::Ld(LoadType::AFromIndirect)),
            0x07 => Some(Instruction::Rlca),
            0x0F => Some(Instruction::Rrca),
            0x17 => Some(Instruction::Rla),
            0x1F => Some(Instruction::Rra),
            0x2F => Some(Instruction::Cpl),
            0x37 => Some(Instruction::Scf),
            0x3F => Some(Instruction::Ccf),
            0x09 => Some(Instruction::AddHl(TargetRegister16::BC)),
            0x19 => Some(Instruction::AddHl(TargetRegister16::DE)),
            0x29 => Some(Instruction::AddHl(TargetRegister16::HL)),
            0xC2 => Some(Instruction::Jp(JumpTest::NotZero)),
            0xCA => Some(Instruction::Jp(JumpTest::Zero)),
            0xD2 => Some(Instruction::Jp(JumpTest::NotCarry)),
            0xDA => Some(Instruction::Jp(JumpTest::Carry)),
            0xC3 => Some(Instruction::Jp(JumpTest::Always)),
            0xC4 => Some(Instruction::Call(JumpTest::NotZero)),
            0xCC => Some(Instruction::Call(JumpTest::Zero)),
            0xD4 => Some(Instruction::Call(JumpTest::NotCarry)),
            0xDC => Some(Instruction::Call(JumpTest::Carry)),
            0xCD => Some(Instruction::Call(JumpTest::Always)),
            0xC0 => Some(Instruction::Ret(JumpTest::NotZero)),
            0xC8 => Some(Instruction::Ret(JumpTest::Zero)),
            0xD0 => Some(Instruction::Ret(JumpTest::NotCarry)),
            0xD8 => Some(Instruction::Ret(JumpTest::Carry)),
            0xC9 => Some(Instruction::Ret(JumpTest::Always)),
            0xC5 => Some(Instruction::Push(StackTarget::BC)),
            0xD5 => Some(Instruction::Push(StackTarget::DE)),
            0xE5 => Some(Instruction::Push(StackTarget::HL)),
            0xF5 => Some(Instruction::Push(StackTarget::AF)),
            0xC1 => Some(Instruction::Pop(StackTarget::BC)),
            0xD1 => Some(Instruction::Pop(StackTarget::DE)),
            0xE1 => Some(Instruction::Pop(StackTarget::HL)),
            0xF1 => Some(Instruction::Pop(StackTarget::AF)),
            0xE0 => Some(Instruction::Ld(LoadType::ByteAddressFromA)),
            0xF0 => Some(Instruction::Ld(LoadType::AFromByteAddress)),
            _ => None,
        }
    }
}

impl Instruction {
    /// Decodes `byte` against the extended table when `prefixed` holds, else
    /// against the primary table. `None` when that table has no instruction
    /// for the byte.
    pub fn from_byte(byte: u8, prefixed: bool) -> (r: Option<Instruction>)
        ensures
            match r {
                Some(i) => encodes(byte, prefixed, i),
                None => forall|i: Instruction| !encodes(byte, prefixed, i),
            },
    {
        if prefixed {
            decode_prefixed(byte)
        } else {
            decode_primary(byte)
        }
    }
}

/// An opcode byte of the extended table stands for at most one instruction.
#[verifier::spinoff_prover]
proof fn lemma_prefixed_unique(byte: u8, i1: Instruction, i2: Instruction)
    requires
        encodes_prefixed(byte, i1),
        encodes_prefixed(byte, i2),
    ensures
        i1 == i2,
{
    match (i1, i2) {
        (Instruction::Bit(a, _), Instruction::Bit(b, _)) => U3::lemma_index_determines(a, b),
        (Instruction::Res(a, _), Instruction::Res(b, _)) => U3::lemma_index_determines(a, b),
        (Instruction::SetBit(a, _), Instruction::SetBit(b, _)) => U3::lemma_index_determines(a, b),
        _ => {},
    }
}

/// An opcode byte of the primary table stands for at most one instruction.
#[verifier::spinoff_prover]
proof fn lemma_primary_unique(byte: u8, i1: Instruction, i2: Instruction)
    requires
        encodes_primary(byte, i1),
        encodes_primary(byte, i2),
    ensures
        i1 == i2,
{
    match i1 {
        Instruction::Add(_) => assert(i1 == i2) by {},
        Instruction::Adc(_) => assert(i1 == i2) by {},
        Instruction::Sub(_) => assert(i1 == i2) by {},
        Instruction::Sbc(_) => assert(i1 == i2) by {},
        Instruction::And(_) => assert(i1 == i2) by {},
        Instruction::Xor(_) => assert(i1 == i2) by {},
        Instruction::Or(_) => assert(i1 == i2) by {},
        Instruction::Cp(_) => assert(i1 == i2) by {},
        Instruction::Inc(_) => assert(i1 == i2) by {},
        Instruction::Dec(_) => assert(i1 == i2) by {},
        Instruction::AddHl(_) => assert(i1 == i2) by {},
        Instruction::Ld(_) => assert(i1 == i2) by {},
        Instruction::Jp(_) => assert(i1 == i2) by {},
        Instruction::Call(_) => assert(i1 == i2) by {},
        Instruction::Ret(_) => assert(i1 == i2) by {},
        Instruction::Push(_) => assert(i1 == i2) by {},
        Instruction::Pop(_) => assert(i1 == i2) by {},
        _ => assert(i1 == i2) by {},
    }
}

/// An opcode byte stands for at most one instruction in each table, so the
/// contract of `Instruction::from_byte` fixes its result.
pub proof fn lemma_opcode_determines_instruction(
    byte: u8,
    prefixed: bool,
    i1: Instruction,
    i2: Instruction,
)
    requires
        encodes(byte, prefixed, i1),
        encodes(byte, prefixed, i2),
    ensures
        i1 == i2,
{
    if prefixed {
        lemma_prefixed_unique(byte, i1, i2);
    } else {
        lemma_primary_unique(byte, i1, i2);
    }
}

} // verus!
