//! Operand types of the instructions.
use vstd::prelude::*;

verus! {

/// Which 8-bit register an instruction works on. F is not among them: it is
/// only reached through the flags.
#[derive(Clone, Copy, Debug, PartialEq, Eq, Structural)]
pub enum TargetRegister8 {
    A,
    B,
    C,
    D,
    E,
    H,
    L,
}

/// The 16-bit register pairs that arithmetic works on.
#[derive(Clone, Copy, Debug, PartialEq, Eq, Structural)]
pub enum TargetRegister16 {
    BC,
    DE,
    HL,
}

/// The 16-bit register pairs that can be pushed on and popped off the stack.
#[derive(Clone, Copy, Debug, PartialEq, Eq, Structural)]
pub enum StackTarget {
    AF,
    BC,
    DE,
    HL,
}

/// What flag state a jump, call or return checks.
#[derive(Clone, Copy, Debug, PartialEq, Eq, Structural)]
pub enum JumpTest {
    /// Taken if the zero flag is clear.
    NotZero,
    /// Taken if the zero flag is set.
    Zero,
    /// Taken if the carry flag is clear.
    NotCarry,
    /// Taken if the carry flag is set.
    Carry,
    /// Always taken.
    Always,
}

/// Where a byte load writes to.
#[derive(Clone, Copy, Debug, PartialEq, Eq, Structural)]
pub enum LoadByteTarget {
    A,
    B,
    C,
    D,
    E,
    H,
    L,
    /// The memory cell addressed by HL. HL itself is left as it is.
    Hli,
}

/// Where a byte load reads from.
#[derive(Clone, Copy, Debug, PartialEq, Eq, Structural)]
pub enum LoadByteSource {
    A,
    B,
    C,
    D,
    E,
    H,
    L,
    /// The byte that follows the opcode.
    D8,
    /// The memory cell addressed by HL. HL itself is left as it is.
    Hli,
}

/// The forms of the load instruction.
#[derive(Clone, Copy, Debug, PartialEq, Eq, Structural)]
pub enum LoadType {
    /// Load an 8-bit value from one place to another.
    Byte(LoadByteTarget, LoadByteSource),
    /// Load a 16-bit value; not supported by this core.
    Word,
    /// Load A from the address held in a register pair; not supported by this core.
    AFromIndirect,
    /// Store A at the address held in a register pair; not supported by this core.
    IndirectFromA,
    /// Load A from the high page of memory; not supported by this core.
    AFromByteAddress,
    /// Store A into the high page of memory; not supported by this core.
    ByteAddressFromA,
}

} // verus!
