//! The CPU: fetches, decodes and executes one instruction per step against the
//! register file and the memory bus.
use crate::instructions::parameter::{
    JumpTest, LoadByteSource, LoadByteTarget, LoadType, TargetRegister8,
};
use crate::instructions::{encodes, lemma_opcode_determines_instruction, Instruction, PREFIX_BYTE};
use crate::memory_bus::{MemoryBus, MemoryView, Unimplemented};
use crate::registers::{high_byte, join_bytes, low_byte, pair_value, split_word, Registers};
use vstd::prelude::*;

verus! {

/// Why a step could not complete. Either ends the run.
#[derive(Clone, Copy, Debug, PartialEq, Eq, Structural)]
pub enum CpuError {
    /// The byte has no instruction in the table that was consulted.
    UnknownOpcode { byte: u8, prefixed: bool },
    /// An access reached a region that has no storage in this core.
    Memory(Unimplemented),
    /// A load form that this core does not execute.
    UnsupportedLoad(LoadType),
}

/// The state of the CPU: registers, program counter, stack pointer, the halt
/// flag and the contents of memory.
pub struct CpuView {
    pub registers: Registers,
    pub pc: u16,
    pub sp: u16,
    pub is_halted: bool,
    pub memory: MemoryView,
}

/// `address + n`, wrapped to 16 bits.
pub open spec fn offset_address(address: u16, n: int) -> u16 {
    ((address + n) % 65536) as u16
}

/// Whether a condition holds for the given flags.
pub open spec fn condition_holds(regs: Registers, c: JumpTest) -> bool {
    match c {
        JumpTest::NotZero => !regs.f.zero,
        JumpTest::Zero => regs.f.zero,
        JumpTest::NotCarry => !regs.f.carry,
        JumpTest::Carry => regs.f.carry,
        JumpTest::Always => true,
    }
}

/// The register a byte load names, if it names one.
pub open spec fn load_target_register(t: LoadByteTarget) -> Option<TargetRegister8> {
    match t {
        LoadByteTarget::A => Some(TargetRegister8::A),
        LoadByteTarget::B => Some(TargetRegister8::B),
        LoadByteTarget::C => Some(TargetRegister8::C),
        LoadByteTarget::D => Some(TargetRegister8::D),
        LoadByteTarget::E => Some(TargetRegister8::E),
        LoadByteTarget::H => Some(TargetRegister8::H),
        LoadByteTarget::L => Some(TargetRegister8::L),
        LoadByteTarget::Hli => None,
    }
}

pub open spec fn load_source_register(s: LoadByteSource) -> Option<TargetRegister8> {
    match s {
        LoadByteSource::A => Some(TargetRegister8::A),
        LoadByteSource::B => Some(TargetRegister8::B),
        LoadByteSource::C => Some(TargetRegister8::C),
        LoadByteSource::D => Some(TargetRegister8::D),
        LoadByteSource::E => Some(TargetRegister8::E),
        LoadByteSource::H => Some(TargetRegister8::H),
        LoadByteSource::L => Some(TargetRegister8::L),
        LoadByteSource::D8 | LoadByteSource::Hli => None,
    }
}

/// Whether `i` comes from the extended table, whose opcodes take two bytes
/// with the prefix.
pub open spec fn is_extended(i: Instruction) -> bool {
    match i {
        Instruction::Bit(..) | Instruction::Res(..) | Instruction::SetBit(..) | Instruction::Rr(..)
        | Instruction::Rl(..) | Instruction::Rrc(..) | Instruction::Rlc(..) | Instruction::Srl(..)
        | Instruction::Sra(..) | Instruction::Sla(..) | Instruction::Swap(..) => true,
        _ => false,
    }
}

/// Whether `i` comes from the extended table.
fn is_extended_instruction(i: Instruction) -> (r: bool)
    ensures
        r == is_extended(i),
{
    match i {
        Instruction::Bit(..) | Instruction::Res(..) | Instruction::SetBit(..) | Instruction::Rr(..)
        | Instruction::Rl(..) | Instruction::Rrc(..) | Instruction::Rlc(..) | Instruction::Srl(..)
        | Instruction::Sra(..) | Instruction::Sla(..) | Instruction::Swap(..) => true,
        _ => false,
    }
}

impl CpuView {
    pub open spec fn read(self, address: u16) -> Result<u8, CpuError> {
        match self.memory.read(address) {
            Ok(v) => Ok(v),
            Err(e) => Err(CpuError::Memory(e)),
        }
    }

    pub open spec fn write(self, address: u16, value: u8) -> Result<CpuView, CpuError> {
        match self.memory.write(address, value) {
            Ok(m) => Ok(CpuView { memory: m, ..self }),
            Err(e) => Err(CpuError::Memory(e)),
        }
    }

    pub open spec fn with_registers(self, registers: Registers) -> CpuView {
        CpuView { registers, ..self }
    }

    /// The little-endian 16-bit value stored just after the opcode.
    pub open spec fn operand_word(self) -> Result<u16, CpuError> {
        match self.read(offset_address(self.pc, 1)) {
            Err(e) => Err(e),
            Ok(low) => match self.read(offset_address(self.pc, 2)) {
                Err(e) => Err(e),
                Ok(high) => Ok(pair_value(high, low)),
            },
        }
    }

    /// Push: the stack pointer goes down by two; the high byte is written at
    /// the higher address, the low byte at the lower one.
    pub open spec fn push(self, value: u16) -> Result<CpuView, CpuError> {
        let sp1 = offset_address(self.sp, -1);
        let sp2 = offset_address(self.sp, -2);
        match self.write(sp1, high_byte(value)) {
            Err(e) => Err(e),
            Ok(s1) => match s1.write(sp2, low_byte(value)) {
                Err(e) => Err(e),
                Ok(s2) => Ok(CpuView { sp: sp2, ..s2 }),
            },
        }
    }

    /// Pop: reads the low byte at the stack pointer and the high byte above
    /// it; the stack pointer goes up by two.
    pub open spec fn pop(self) -> Result<(CpuView, u16), CpuError> {
        match self.read(self.sp) {
            Err(e) => Err(e),
            Ok(low) => match self.read(offset_address(self.sp, 1)) {
                Err(e) => Err(e),
                Ok(high) => Ok(
                    (CpuView { sp: offset_address(self.sp, 2), ..self }, pair_value(high, low)),
                ),
            },
        }
    }

    /// The result of a byte load, and the address of the next instruction.
    pub open spec fn load_byte(self, t: LoadByteTarget, s: LoadByteSource) -> Result<
        (CpuView, u16),
        CpuError,
    > {
        let value = match load_source_register(s) {
            Some(r) => Ok(self.registers.r8(r)),
            None => if s == LoadByteSource::D8 {
                self.read(offset_address(self.pc, 1))
            } else {
                self.read(self.registers.hl())
            },
        };
        let next = if s == LoadByteSource::D8 {
            offset_address(self.pc, 2)
        } else {
            offset_address(self.pc, 1)
        };
        match value {
            Err(e) => Err(e),
            Ok(v) => match load_target_register(t) {
                Some(r) => Ok((self.with_registers(self.registers.with_r8(r, v)), next)),
                None => match self.write(self.registers.hl(), v) {
                    Err(e) => Err(e),
                    Ok(s2) => Ok((s2, next)),
                },
            },
        }
    }

    /// The state after executing `i`, and the address of the next instruction.
    /// A halted CPU does nothing and stays where it is.
    pub open spec fn execute(self, i: Instruction) -> Result<(CpuView, u16), CpuError> {
        let next = offset_address(self.pc, 1);
        if self.is_halted {
            Ok((self, self.pc))
        } else {
            match i {
                Instruction::Jp(c) => if condition_holds(self.registers, c) {
                    match self.operand_word() {
                        Err(e) => Err(e),
                        Ok(target) => Ok((self, target)),
                    }
                } else {
                    Ok((self, offset_address(self.pc, 3)))
                },
                Instruction::Call(c) => if condition_holds(self.registers, c) {
                    match self.push(offset_address(self.pc, 3)) {
                        Err(e) => Err(e),
                        Ok(s1) => match s1.operand_word() {
                            Err(e) => Err(e),
                            Ok(target) => Ok((s1, target)),
                        },
                    }
                } else {
                    Ok((self, offset_address(self.pc, 3)))
                },
                Instruction::Ret(c) => if condition_holds(self.registers, c) {
                    self.pop()
                } else {
                    Ok((self, next))
                },
                Instruction::Push(t) => match self.push(self.registers.stack_pair(t)) {
                    Err(e) => Err(e),
                    Ok(s1) => Ok((s1, next)),
                },
                Instruction::Pop(t) => match self.pop() {
                    Err(e) => Err(e),
                    Ok((s1, v)) => Ok((s1.with_registers(s1.registers.with_stack_pair(t, v)), next)),
                },
                Instruction::Ld(LoadType::Byte(t, s)) => self.load_byte(t, s),
                Instruction::Ld(lt) => Err(CpuError::UnsupportedLoad(lt)),
                Instruction::Halt => Ok((CpuView { is_halted: true, ..self }, next)),
                _ => Ok(
                    (
                        self.with_registers(self.registers.after_instruction(i)),
                        if is_extended(i) {
                            offset_address(self.pc, 2)
                        } else {
                            next
                        },
                    ),
                ),
            }
        }
    }
    /// The opcode at the program counter and whether it is from the extended
    /// table: after the prefix byte, the byte that follows it.
    pub open spec fn fetch(self) -> Result<(u8, bool), CpuError> {
        match self.read(self.pc) {
            Err(e) => Err(e),
            Ok(first) => if first == PREFIX_BYTE {
                match self.read(offset_address(self.pc, 1)) {
                    Err(e) => Err(e),
                    Ok(byte) => Ok((byte, true)),
                }
            } else {
                Ok((first, false))
            },
        }
    }

    /// Decodes `byte` in the table that `prefixed` selects, executes the
    /// instruction and moves the program counter to the next one.
    pub open spec fn run_opcode(self, byte: u8, prefixed: bool) -> Result<CpuView, CpuError> {
        if exists|i: Instruction| encodes(byte, prefixed, i) {
            match self.execute(choose|i: Instruction| encodes(byte, prefixed, i)) {
                Err(e) => Err(e),
                Ok((s, next)) => Ok(CpuView { pc: next, ..s }),
            }
        } else {
            Err(CpuError::UnknownOpcode { byte, prefixed })
        }
    }

    /// One step: fetch, decode, execute. A halted CPU does nothing.
    pub open spec fn step(self) -> Result<CpuView, CpuError> {
        if self.is_halted {
            Ok(self)
        } else {
            match self.fetch() {
                Err(e) => Err(e),
                Ok((byte, prefixed)) => self.run_opcode(byte, prefixed),
            }
        }
    }
}

/// The CPU and the memory it runs against.
pub struct Cpu {
    pub registers: Registers,
    /// Address of the next instruction.
    pub pc: u16,
    /// Address of the top of the stack.
    pub sp: u16,
    pub bus: MemoryBus,
    /// Set by `Halt`; a halted CPU does not advance.
    pub is_halted: bool,
}

impl Default for Cpu {
    fn default() -> (r: Cpu)
        ensures
            r.bus.wf(),
            r.registers == Registers::new_spec(),
            r.pc == 0,
            r.sp == 0xFFFF,
            !r.is_halted,
            r.bus@ == MemoryView::zeroed(),
    {
        Cpu::new()
    }
}

impl View for Cpu {
    type V = CpuView;

    open spec fn view(&self) -> CpuView {
        CpuView {
            registers: self.registers,
            pc: self.pc,
            sp: self.sp,
            is_halted: self.is_halted,
            memory: self.bus@,
        }
    }
}

impl Cpu {
    /// A CPU at address 0 with the stack pointer at the top of memory, over a
    /// zeroed memory bus.
    pub fn new() -> (r: Cpu)
        ensures
            r.bus.wf(),
            r.registers == Registers::new_spec(),
            r.pc == 0,
            r.sp == 0xFFFF,
            !r.is_halted,
            r.bus@ == MemoryView::zeroed(),
    {
        Cpu::with_bus(MemoryBus::new())
    }

    /// A CPU at address 0 with the stack pointer at the top of memory, over `bus`.
    pub fn with_bus(bus: MemoryBus) -> (r: Cpu)
        ensures
            r.registers == Registers::new_spec(),
            r.pc == 0,
            r.sp == 0xFFFF,
            !r.is_halted,
            r.bus == bus,
    {
        Cpu { registers: Registers::new(), pc: 0, sp: 0xFFFF, bus, is_halted: false }
    }

    fn read(&self, address: u16) -> (r: Result<u8, CpuError>)
        requires
            self.bus.wf(),
        ensures
            r == self@.read(address),
    {
        match self.bus.read_byte(address) {
            Ok(v) => Ok(v),
            Err(e) => Err(CpuError::Memory(e)),
        }
    }

    fn write(&mut self, address: u16, value: u8) -> (r: Result<(), CpuError>)
        requires
            old(self).bus.wf(),
        ensures
            final(self).bus.wf(),
            final(self).pc == old(self).pc,
            final(self).registers == old(self).registers,
            match old(self)@.write(address, value) {
                Ok(s) => r is Ok && final(self)@ == s,
                Err(e) => r == Err::<(), CpuError>(e),
            },
    {
        match self.bus.write_byte(address, value) {
            Ok(()) => Ok(()),
            Err(e) => Err(CpuError::Memory(e)),
        }
    }

    /// Whether a condition holds for the current flags.
    fn get_jump_test_result(&self, condition: JumpTest) -> (r: bool)
        ensures
            r == condition_holds(self.registers, condition),
    {
        match condition {
            JumpTest::Zero => self.registers.f.zero,
            JumpTest::NotZero => !self.registers.f.zero,
            JumpTest::Carry => self.registers.f.carry,
            JumpTest::NotCarry => !self.registers.f.carry,
            JumpTest::Always => true,
        }
    }

    /// Reads the byte after the opcode.
    fn read_next_byte(&self) -> (r: Result<u8, CpuError>)
        requires
            self.bus.wf(),
        ensures
            r == self@.read(offset_address(self.pc, 1)),
    {
        self.read(self.pc.wrapping_add(1))
    }

    /// Reads the little-endian word after the opcode.
    fn read_next_word(&self) -> (r: Result<u16, CpuError>)
        requires
            self.bus.wf(),
        ensures
            r == self@.operand_word(),
    {
        let low = match self.read(self.pc.wrapping_add(1)) {
            Ok(v) => v,
            Err(e) => {
                return Err(e);
            },
        };
        let high = match self.read(self.pc.wrapping_add(2)) {
            Ok(v) => v,
            Err(e) => {
                return Err(e);
            },
        };
        Ok(join_bytes(high, low))
    }

    /// Pushes a 16-bit value on the stack.
    fn push(&mut self, value: u16) -> (r: Result<(), CpuError>)
        requires
            old(self).bus.wf(),
        ensures
            final(self).bus.wf(),
            final(self).pc == old(self).pc,
            final(self).registers == old(self).registers,
            match old(self)@.push(value) {
                Ok(s) => r is Ok && final(self)@ == s,
                Err(e) => r == Err::<(), CpuError>(e),
            },
    {
        let (high, low) = split_word(value);
        self.sp = self.sp.wrapping_sub(1);
        match self.write(self.sp, high) {
            Ok(()) => {},
            Err(e) => {
                return Err(e);
            },
        }
        self.sp = self.sp.wrapping_sub(1);
        self.write(self.sp, low)
    }

    /// Pops a 16-bit value off the stack.
    fn pop(&mut self) -> (r: Result<u16, CpuError>)
        requires
            old(self).bus.wf(),
        ensures
            final(self).bus.wf(),
            final(self).pc == old(self).pc,
            final(self).registers == old(self).registers,
            match old(self)@.pop() {
                Ok((s, v)) => r == Ok::<u16, CpuError>(v) && final(self)@ == s,
                Err(e) => r == Err::<u16, CpuError>(e),
            },
    {
        let low = match self.read(self.sp) {
            Ok(v) => v,
            Err(e) => {
                return Err(e);
            },
        };
        let high = match self.read(self.sp.wrapping_add(1)) {
            Ok(v) => v,
            Err(e) => {
                return Err(e);
            },
        };
        self.sp = self.sp.wrapping_add(2);
        Ok(join_bytes(high, low))
    }
    /// Executes `Jp`: the target address if the condition holds, else the
    /// instruction after the three bytes of this one.
    fn jump(&self, condition: JumpTest) -> (r: Result<u16, CpuError>)
        requires
            self.bus.wf(),
        ensures
            r == (if condition_holds(self.registers, condition) {
                self@.operand_word()
            } else {
                Ok(offset_address(self.pc, 3))
            }),
    {
        if self.get_jump_test_result(condition) {
            self.read_next_word()
        } else {
            Ok(self.pc.wrapping_add(3))
        }
    }

    /// Executes a byte load and returns the address of the next instruction.
    fn load_byte(&mut self, target: LoadByteTarget, source: LoadByteSource) -> (r: Result<
        u16,
        CpuError,
    >)
        requires
            old(self).bus.wf(),
        ensures
            final(self).bus.wf(),
            final(self).pc == old(self).pc,
            match old(self)@.load_byte(target, source) {
                Ok((s, next)) => r == Ok::<u16, CpuError>(next) && final(self)@ == s,
                Err(e) => r == Err::<u16, CpuError>(e),
            },
    {
        let value = match source {
            LoadByteSource::A => self.registers.a,
            LoadByteSource::B => self.registers.b,
            LoadByteSource::C => self.registers.c,
            LoadByteSource::D => self.registers.d,
            LoadByteSource::E => self.registers.e,
            LoadByteSource::H => self.registers.h,
            LoadByteSource::L => self.registers.l,
            LoadByteSource::D8 => match self.read_next_byte() {
                Ok(v) => v,
                Err(e) => {
                    return Err(e);
                },
            },
            LoadByteSource::Hli => match self.read(self.registers.get_hl()) {
                Ok(v) => v,
                Err(e) => {
                    return Err(e);
                },
            },
        };
        match target {
            LoadByteTarget::A => self.registers.a = value,
            LoadByteTarget::B => self.registers.b = value,
            LoadByteTarget::C => self.registers.c = value,
            LoadByteTarget::D => self.registers.d = value,
            LoadByteTarget::E => self.registers.e = value,
            LoadByteTarget::H => self.registers.h = value,
            LoadByteTarget::L => self.registers.l = value,
            LoadByteTarget::Hli => {
                let address = self.registers.get_hl();
                match self.write(address, value) {
                    Ok(()) => {},
                    Err(e) => {
                        return Err(e);
                    },
                }
            },
        }
        match source {
            LoadByteSource::D8 => Ok(self.pc.wrapping_add(2)),
            _ => Ok(self.pc.wrapping_add(1)),
        }
    }

    /// Executes `Ld`. Only byte loads are carried out; every other form is an error.
    fn load(&mut self, load_type: LoadType) -> (r: Result<u16, CpuError>)
        requires
            old(self).bus.wf(),
        ensures
            final(self).bus.wf(),
            final(self).pc == old(self).pc,
            match load_type {
                LoadType::Byte(t, s) => match old(self)@.load_byte(t, s) {
                    Ok((s, next)) => r == Ok::<u16, CpuError>(next) && final(self)@ == s,
                    Err(e) => r == Err::<u16, CpuError>(e),
                },
                _ => r == Err::<u16, CpuError>(CpuError::UnsupportedLoad(load_type)),
            },
    {
        match load_type {
            LoadType::Byte(target, source) => self.load_byte(target, source),
            _ => Err(CpuError::UnsupportedLoad(load_type)),
        }
    }

    /// Executes `Call`: if the condition holds, pushes the address after this
    /// three-byte instruction and returns the target address.
    fn call(&mut self, condition: JumpTest) -> (r: Result<u16, CpuError>)
        requires
            old(self).bus.wf(),
        ensures
            final(self).bus.wf(),
            final(self).pc == old(self).pc,
            if condition_holds(old(self).registers, condition) {
                match old(self)@.push(offset_address(old(self).pc, 3)) {
                    Err(e) => r == Err::<u16, CpuError>(e),
                    Ok(s1) => final(self)@ == s1 && r == s1.operand_word(),
                }
            } else {
                r == Ok::<u16, CpuError>(offset_address(old(self).pc, 3)) && final(self)@ == old(
                    self,
                )@
            },
    {
        let next_pc = self.pc.wrapping_add(3);
        if self.get_jump_test_result(condition) {
            match self.push(next_pc) {
                Ok(()) => {},
                Err(e) => {
                    return Err(e);
                },
            }
            self.read_next_word()
        } else {
            Ok(next_pc)
        }
    }

    /// Executes `Ret`: if the condition holds, pops the return address.
    fn ret(&mut self, condition: JumpTest) -> (r: Result<u16, CpuError>)
        requires
            old(self).bus.wf(),
        ensures
            final(self).bus.wf(),
            final(self).pc == old(self).pc,
            if condition_holds(old(self).registers, condition) {
                match old(self)@.pop() {
                    Ok((s, v)) => r == Ok::<u16, CpuError>(v) && final(self)@ == s,
                    Err(e) => r == Err::<u16, CpuError>(e),
                }
            } else {
                r == Ok::<u16, CpuError>(offset_address(old(self).pc, 1)) && final(self)@ == old(
                    self,
                )@
            },
    {
        if self.get_jump_test_result(condition) {
            self.pop()
        } else {
            Ok(self.pc.wrapping_add(1))
        }
    }
    /// Executes one instruction and returns the address of the next one; the
    /// program counter itself is left for the caller to move. A halted CPU
    /// does nothing and returns the program counter.
    pub fn execute(&mut self, instruction: Instruction) -> (r: Result<u16, CpuError>)
        requires
            old(self).bus.wf(),
        ensures
            final(self).bus.wf(),
            match old(self)@.execute(instruction) {
                Ok((s, next)) => r == Ok::<u16, CpuError>(next) && final(self)@ == s,
                Err(e) => r == Err::<u16, CpuError>(e),
            },
    {
        if self.is_halted {
            return Ok(self.pc);
        }
        let next = self.pc.wrapping_add(1);
        match instruction {
            Instruction::Jp(condition) => self.jump(condition),
            Instruction::Ld(load_type) => self.load(load_type),
            Instruction::Push(r16) => {
                let value = self.registers.get_stack_pair(r16);
                match self.push(value) {
                    Ok(()) => Ok(next),
                    Err(e) => Err(e),
                }
            },
            Instruction::Pop(r16) => match self.pop() {
                Ok(value) => {
                    self.registers.set_stack_pair(r16, value);
                    Ok(next)
                },
                Err(e) => Err(e),
            },
            Instruction::Call(condition) => self.call(condition),
            Instruction::Ret(condition) => self.ret(condition),
            Instruction::Halt => {
                self.is_halted = true;
                Ok(next)
            },
            _ => {
                self.registers.apply(instruction);
                if is_extended_instruction(instruction) {
                    Ok(self.pc.wrapping_add(2))
                } else {
                    Ok(next)
                }
            },
        }
    }

    /// Advances by one instruction: fetches the opcode at the program counter
    /// (after the prefix byte, the following byte from the extended table),
    /// decodes and executes it, and moves the program counter. An opcode with
    /// no instruction is reported with the table it was looked up in. A halted
    /// CPU is left exactly as it is.
    pub fn step(&mut self) -> (r: Result<(), CpuError>)
        requires
            old(self).bus.wf(),
        ensures
            final(self).bus.wf(),
            match old(self)@.step() {
                Ok(s) => r is Ok && final(self)@ == s,
                Err(e) => r == Err::<(), CpuError>(e),
            },
            old(self).is_halted ==> r is Ok && final(self)@ == old(self)@,
    {
        if self.is_halted {
            return Ok(());
        }
        let (byte, prefixed) = match self.fetch() {
            Ok(v) => v,
            Err(e) => {
                return Err(e);
            },
        };
        match Instruction::from_byte(byte, prefixed) {
            Some(instruction) => {
                proof {
                    let chosen = choose|i: Instruction| encodes(byte, prefixed, i);
                    lemma_opcode_determines_instruction(byte, prefixed, instruction, chosen);
                }
                match self.execute(instruction) {
                    Ok(next) => {
                        self.pc = next;
                        Ok(())
                    },
                    Err(e) => Err(e),
                }
            },
            None => Err(CpuError::UnknownOpcode { byte, prefixed }),
        }
    }

    /// Reads the opcode at the program counter, following the prefix byte.
    fn fetch(&self) -> (r: Result<(u8, bool), CpuError>)
        requires
            self.bus.wf(),
        ensures
            r == self@.fetch(),
    {
        let first = match self.read(self.pc) {
            Ok(v) => v,
            Err(e) => {
                return Err(e);
            },
        };
        if first == PREFIX_BYTE {
            match self.read(self.pc.wrapping_add(1)) {
                Ok(byte) => Ok((byte, true)),
                Err(e) => Err(e),
            }
        } else {
            Ok((first, false))
        }
    }
}

} // verus!
