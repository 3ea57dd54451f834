//! The register-only instructions: 8-bit and 16-bit arithmetic, logic,
//! increment and decrement, carry-flag operations, bit tests and the
//! rotate/shift family. Each is a method of the register file whose contract
//! gives the whole register file afterwards.
use crate::instructions::parameter::{TargetRegister16, TargetRegister8};
use crate::instructions::Instruction;
use crate::registers::{bit_set, bit_value, lemma_split_join, FlagsRegister, Registers, U3};
use vstd::prelude::*;

verus! {

/// Flags of a rotate or shift: zero from the result, carry from the bit that
/// left the register.
pub open spec fn shift_flags(result: u8, carry: bool) -> FlagsRegister {
    FlagsRegister { zero: result == 0, subtract: false, half_carry: false, carry }
}

/// `x` rotated left by one, with bit 7 kept in place rather than moved to bit 0.
pub open spec fn rlc_value(x: u8) -> u8 {
    if x >= 128 {
        (128 + (x % 64) * 2) as u8
    } else {
        ((x % 128) * 2) as u8
    }
}

impl Registers {
    /// A after adding `value` to it, with the flags of an 8-bit addition.
    pub open spec fn after_add(self, value: u8) -> Registers {
        let sum = self.a + value;
        Registers {
            a: (sum % 256) as u8,
            f: FlagsRegister {
                zero: sum % 256 == 0,
                subtract: false,
                half_carry: self.a % 16 + value % 16 > 15,
                carry: sum > 255,
            },
            ..self
        }
    }

    /// The operand of `Adc` and `Sbc`: the register plus the old carry, wrapped to 8 bits.
    pub open spec fn with_carry_in(self, value: u8) -> u8 {
        ((value + bit_value(self.f.carry)) % 256) as u8
    }

    /// The flags of subtracting `value` from A, and the 8-bit difference.
    pub open spec fn sub_flags(self, value: u8) -> FlagsRegister {
        let diff = ((self.a - value) % 256) as u8;
        FlagsRegister {
            zero: diff == 0,
            subtract: true,
            half_carry: self.a % 16 + diff % 16 >= 15,
            carry: self.a < value,
        }
    }

    pub open spec fn difference(self, value: u8) -> u8 {
        ((self.a - value) % 256) as u8
    }

    pub open spec fn after_compare(self, value: u8) -> Registers {
        Registers { f: self.sub_flags(value), ..self }
    }

    pub open spec fn after_sub(self, value: u8) -> Registers {
        Registers { a: self.difference(value), f: self.sub_flags(value), ..self }
    }

    /// HL after adding `value` to it. Half-carry compares the low nibbles of the
    /// two 16-bit values.
    pub open spec fn after_add_hl(self, value: u16) -> Registers {
        let sum = self.hl() + value;
        Registers {
            f: FlagsRegister {
                zero: sum % 65536 == 0,
                subtract: false,
                half_carry: self.hl() % 16 + value % 16 > 15,
                carry: sum > 65535,
            },
            ..self.with_hl((sum % 65536) as u16)
        }
    }

    /// Flags of a logic instruction: zero tells whether A was zero before it
    /// changed; carry is cleared.
    pub open spec fn logic_flags(self, half_carry: bool) -> FlagsRegister {
        FlagsRegister { zero: self.a == 0, subtract: false, half_carry, carry: false }
    }

    pub open spec fn after_inc(self, target: TargetRegister8) -> Registers {
        let x = self.r8(target);
        let v = ((x + 1) % 256) as u8;
        Registers {
            f: FlagsRegister {
                zero: v == 0,
                subtract: false,
                half_carry: x % 16 == 15,
                carry: self.f.carry,
            },
            ..self.with_r8(target, v)
        }
    }

    pub open spec fn after_dec(self, target: TargetRegister8) -> Registers {
        let x = self.r8(target);
        let v = ((x - 1) % 256) as u8;
        Registers {
            f: FlagsRegister {
                zero: v == 0,
                subtract: false,
                half_carry: v % 16 != 15,
                carry: self.f.carry,
            },
            ..self.with_r8(target, v)
        }
    }

    /// The register set to `value`, with the flags of a rotate or shift.
    pub open spec fn after_shift(self, target: TargetRegister8, value: u8, carry: bool) -> Registers {
        Registers { f: shift_flags(value, carry), ..self.with_r8(target, value) }
    }

    pub open spec fn after_and(self, value: u8) -> Registers {
        Registers { a: self.a & value, f: self.logic_flags(true), ..self }
    }

    pub open spec fn after_or(self, value: u8) -> Registers {
        Registers { a: self.a | value, f: self.logic_flags(false), ..self }
    }

    pub open spec fn after_xor(self, value: u8) -> Registers {
        Registers { a: self.a ^ value, f: self.logic_flags(false), ..self }
    }

    pub open spec fn after_ccf(self) -> Registers {
        Registers {
            f: FlagsRegister { subtract: false, half_carry: false, carry: !self.f.carry, ..self.f },
            ..self
        }
    }

    pub open spec fn after_scf(self) -> Registers {
        Registers {
            f: FlagsRegister { subtract: false, half_carry: false, carry: true, ..self.f },
            ..self
        }
    }

    pub open spec fn after_cpl(self) -> Registers {
        Registers {
            a: !self.a,
            f: FlagsRegister { subtract: true, half_carry: true, ..self.f },
            ..self
        }
    }

    pub open spec fn after_bit(self, index: U3, target: TargetRegister8) -> Registers {
        Registers {
            f: FlagsRegister {
                zero: !bit_set(self.r8(target), index.index()),
                subtract: false,
                half_carry: true,
                ..self.f
            },
            ..self
        }
    }

    pub open spec fn after_res(self, index: U3, target: TargetRegister8) -> Registers {
        self.with_r8(target, self.r8(target) & !(1u8 << index.index()))
    }

    pub open spec fn after_set(self, index: U3, target: TargetRegister8) -> Registers {
        self.with_r8(target, self.r8(target) | (1u8 << index.index()))
    }

    pub open spec fn after_srl(self, target: TargetRegister8) -> Registers {
        let x = self.r8(target);
        self.after_shift(target, x / 2, x % 2 == 1)
    }

    pub open spec fn after_sla(self, target: TargetRegister8) -> Registers {
        let x = self.r8(target);
        self.after_shift(target, ((x % 128) * 2) as u8, x >= 128)
    }

    pub open spec fn after_rr(self, target: TargetRegister8) -> Registers {
        let x = self.r8(target);
        self.after_shift(target, (x / 2 + 128 * bit_value(self.f.carry)) as u8, x % 2 == 1)
    }

    pub open spec fn after_rl(self, target: TargetRegister8) -> Registers {
        let x = self.r8(target);
        self.after_shift(target, ((x % 128) * 2 + bit_value(self.f.carry)) as u8, x >= 128)
    }

    pub open spec fn after_rrc(self, target: TargetRegister8) -> Registers {
        let x = self.r8(target);
        self.after_shift(target, (x / 2 + 128 * (x % 2)) as u8, x % 2 == 1)
    }

    /// The zero flag of `Rlc` is always cleared.
    pub open spec fn after_rlc(self, target: TargetRegister8) -> Registers {
        let x = self.r8(target);
        Registers {
            f: FlagsRegister { zero: false, subtract: false, half_carry: false, carry: x >= 128 },
            ..self.with_r8(target, rlc_value(x))
        }
    }

    pub open spec fn after_swap(self, target: TargetRegister8) -> Registers {
        let x = self.r8(target);
        Registers {
            f: FlagsRegister { zero: false, subtract: false, half_carry: false, carry: false },
            ..self.with_r8(target, ((x % 16) * 16 + x / 16) as u8)
        }
    }

    /// The register file after an instruction; instructions that do more than
    /// change registers leave it as it is.
    pub open spec fn after_instruction(self, i: Instruction) -> Registers {
        let r = self;
        match i {
            Instruction::Add(t) => r.after_add(r.r8(t)),
            Instruction::AddHl(p) => r.after_add_hl(r.r16(p)),
            Instruction::Adc(t) => r.after_add(r.with_carry_in(r.r8(t))),
            Instruction::Sub(t) => r.after_sub(r.r8(t)),
            Instruction::Sbc(t) => r.after_sub(r.with_carry_in(r.r8(t))),
            Instruction::Cp(t) => r.after_compare(r.r8(t)),
            Instruction::And(t) => Registers { a: r.a & r.r8(t), f: r.logic_flags(true), ..r },
            Instruction::Or(t) => Registers { a: r.a | r.r8(t), f: r.logic_flags(false), ..r },
            Instruction::Xor(t) => Registers { a: r.a ^ r.r8(t), f: r.logic_flags(false), ..r },
            Instruction::Inc(t) => r.after_inc(t),
            Instruction::Dec(t) => r.after_dec(t),
            Instruction::Ccf => r.after_ccf(),
            Instruction::Scf => r.after_scf(),
            Instruction::Cpl => r.after_cpl(),
            Instruction::Bit(n, t) => r.after_bit(n, t),
            Instruction::Res(n, t) => r.after_res(n, t),
            Instruction::SetBit(n, t) => r.after_set(n, t),
            Instruction::Rr(t) => r.after_rr(t),
            Instruction::Rl(t) => r.after_rl(t),
            Instruction::Rrc(t) => r.after_rrc(t),
            Instruction::Rlc(t) => r.after_rlc(t),
            Instruction::Rra => r.after_rr(TargetRegister8::A),
            Instruction::Rla => r.after_rl(TargetRegister8::A),
            Instruction::Rrca => r.after_rrc(TargetRegister8::A),
            Instruction::Rlca => r.after_rlc(TargetRegister8::A),
            Instruction::Srl(t) | Instruction::Sra(t) => r.after_srl(t),
            Instruction::Sla(t) => r.after_sla(t),
            Instruction::Swap(t) => r.after_swap(t),
            _ => r,
        }
    }

    /// Carries out an instruction that only changes registers.
    pub fn apply(&mut self, i: Instruction)
        ensures
            *final(self) == old(self).after_instruction(i),
    {
        match i {
            Instruction::Add(t) => self.add_a(t),
            Instruction::AddHl(p) => self.add_hl(p),
            Instruction::Adc(t) => self.add_with_carry(t),
            Instruction::Sub(t) => self.sub(t),
            Instruction::Sbc(t) => self.sub_with_carry(t),
            Instruction::Cp(t) => {
                self.compare(t);
            },
            Instruction::And(t) => self.and(t),
            Instruction::Or(t) => self.or(t),
            Instruction::Xor(t) => self.xor(t),
            Instruction::Inc(t) => self.increment(t),
            Instruction::Dec(t) => self.decrement(t),
            Instruction::Ccf => self.invert_carry_flag(),
            Instruction::Scf => self.set_carry_flag(),
            Instruction::Cpl => self.complement_a(),
            Instruction::Bit(n, t) => self.test_bit(n, t),
            Instruction::Res(n, t) => self.unset_bit(n, t),
            Instruction::SetBit(n, t) => self.set_bit(n, t),
            Instruction::Rr(t) => self.rotate_right_with_carry(t),
            Instruction::Rl(t) => self.rotate_left_with_carry(t),
            Instruction::Rrc(t) => self.rotate_right_no_carry(t),
            Instruction::Rlc(t) => self.rotate_left_no_carry(t),
            Instruction::Rra => self.rotate_right_with_carry(TargetRegister8::A),
            Instruction::Rla => self.rotate_left_with_carry(TargetRegister8::A),
            Instruction::Rrca => self.rotate_right_no_carry(TargetRegister8::A),
            Instruction::Rlca => self.rotate_left_no_carry(TargetRegister8::A),
            Instruction::Srl(t) => self.shift_right_logically(t),
            Instruction::Sra(t) => self.shift_right_arithmetically(t),
            Instruction::Sla(t) => self.shift_left_arithmetically(t),
            Instruction::Swap(t) => self.swap(t),
            _ => {},
        }
    }

    /// Executes `Add`: adds an 8-bit register to A.
    pub fn add_a(&mut self, target: TargetRegister8)
        ensures
            *final(self) == old(self).after_add(old(self).r8(target)),
    {
        let value = self.get_r8(target);
        self.add_value(value);
    }

    /// Adds `value` to A and sets the flags of an 8-bit addition.
    fn add_value(&mut self, value: u8)
        ensures
            *final(self) == old(self).after_add(value),
    {
        let a = self.a;
        let new_value = a.wrapping_add(value);
        self.f.zero = new_value == 0;
        self.f.subtract = false;
        self.f.carry = (a as u16) + (value as u16) > 255;
        self.f.half_carry = a % 16 + value % 16 > 15;
        self.a = new_value;
    }

    /// Executes `Adc`: adds an 8-bit register and the old carry to A.
    pub fn add_with_carry(&mut self, target: TargetRegister8)
        ensures
            *final(self) == old(self).after_add(old(self).with_carry_in(old(self).r8(target))),
    {
        let old_carry: u8 = if self.f.carry { 1 } else { 0 };
        let value = self.get_r8(target).wrapping_add(old_carry);
        self.add_value(value);
    }

    /// Executes `AddHl`: adds a register pair to HL.
    pub fn add_hl(&mut self, target: TargetRegister16)
        ensures
            *final(self) == old(self).after_add_hl(old(self).r16(target)),
            final(self).hl() == (old(self).hl() + old(self).r16(target)) % 65536,
            final(self).f.carry == (old(self).hl() + old(self).r16(target) > 0xFFFF),
    {
        let value = self.get_r16(target);
        let hl = self.get_hl();
        let new_value = hl.wrapping_add(value);
        self.f.zero = new_value == 0;
        self.f.subtract = false;
        self.f.carry = (hl as u32) + (value as u32) > 65535;
        self.f.half_carry = hl % 16 + value % 16 > 15;
        self.set_hl(new_value);
        proof {
            lemma_split_join(new_value);
        }
    }

    /// Sets the flags of subtracting `value` from A and returns the difference.
    fn subtract_value(&mut self, value: u8) -> (r: u8)
        ensures
            *final(self) == old(self).after_compare(value),
            r == old(self).difference(value),
    {
        let a = self.a;
        let new_value = a.wrapping_sub(value);
        self.f.zero = new_value == 0;
        self.f.subtract = true;
        self.f.carry = a < value;
        self.f.half_carry = a % 16 + new_value % 16 >= 15;
        new_value
    }

    /// Executes `Cp`: the flags of `Sub`, with A left as it is. Returns the
    /// difference.
    pub fn compare(&mut self, target: TargetRegister8) -> (r: u8)
        ensures
            *final(self) == old(self).after_compare(old(self).r8(target)),
            r == old(self).difference(old(self).r8(target)),
    {
        let value = self.get_r8(target);
        self.subtract_value(value)
    }

    /// Executes `Sub`: subtracts an 8-bit register from A.
    pub fn sub(&mut self, target: TargetRegister8)
        ensures
            *final(self) == old(self).after_sub(old(self).r8(target)),
    {
        self.a = self.compare(target);
    }

    /// Executes `Sbc`: subtracts an 8-bit register and the old carry from A.
    pub fn sub_with_carry(&mut self, target: TargetRegister8)
        ensures
            *final(self) == old(self).after_sub(old(self).with_carry_in(old(self).r8(target))),
    {
        let old_carry: u8 = if self.f.carry { 1 } else { 0 };
        let value = self.get_r8(target).wrapping_add(old_carry);
        self.a = self.subtract_value(value);
    }

    /// Executes `And`.
    pub fn and(&mut self, target: TargetRegister8)
        ensures
            *final(self) == old(self).after_and(old(self).r8(target)),
    {
        let value = self.get_r8(target);
        self.f.zero = self.a == 0;
        self.f.subtract = false;
        self.f.half_carry = true;
        self.f.carry = false;
        self.a = self.a & value;
    }

    /// Executes `Or`.
    pub fn or(&mut self, target: TargetRegister8)
        ensures
            *final(self) == old(self).after_or(old(self).r8(target)),
    {
        let value = self.get_r8(target);
        self.f.zero = self.a == 0;
        self.f.subtract = false;
        self.f.half_carry = false;
        self.f.carry = false;
        self.a = self.a | value;
    }

    /// Executes `Xor`.
    pub fn xor(&mut self, target: TargetRegister8)
        ensures
            *final(self) == old(self).after_xor(old(self).r8(target)),
    {
        let value = self.get_r8(target);
        self.f.zero = self.a == 0;
        self.f.subtract = false;
        self.f.half_carry = false;
        self.f.carry = false;
        self.a = self.a ^ value;
    }

    /// Executes `Inc`.
    pub fn increment(&mut self, target: TargetRegister8)
        ensures
            *final(self) == old(self).after_inc(target),
    {
        let old_value = self.get_r8(target);
        let new_value = old_value.wrapping_add(1);
        self.set_r8(target, new_value);
        self.f.zero = new_value == 0;
        self.f.subtract = false;
        self.f.half_carry = old_value % 16 == 15;
    }

    /// Executes `Dec`.
    pub fn decrement(&mut self, target: TargetRegister8)
        ensures
            *final(self) == old(self).after_dec(target),
    {
        let new_value = self.get_r8(target).wrapping_sub(1);
        self.set_r8(target, new_value);
        self.f.zero = new_value == 0;
        self.f.subtract = false;
        self.f.half_carry = new_value % 16 != 15;
    }

    /// Executes `Ccf`: inverts the carry flag.
    pub fn invert_carry_flag(&mut self)
        ensures
            *final(self) == old(self).after_ccf(),
    {
        self.f.subtract = false;
        self.f.half_carry = false;
        self.f.carry = !self.f.carry;
    }

    /// Executes `Scf`: sets the carry flag.
    pub fn set_carry_flag(&mut self)
        ensures
            *final(self) == old(self).after_scf(),
    {
        self.f.subtract = false;
        self.f.half_carry = false;
        self.f.carry = true;
    }

    /// Executes `Cpl`: complements A.
    pub fn complement_a(&mut self)
        ensures
            *final(self) == old(self).after_cpl(),
    {
        self.f.subtract = true;
        self.f.half_carry = true;
        self.a = !self.a;
    }
    /// Executes `Bit`: the zero flag tells whether the bit is clear; the
    /// register is left as it is.
    pub fn test_bit(&mut self, index: U3, target: TargetRegister8)
        ensures
            *final(self) == old(self).after_bit(index, target),
    {
        let value = self.get_r8(target);
        let i = index.value();
        let is_bit_set = ((value >> i) & 1) == 1;
        self.f.subtract = false;
        self.f.half_carry = true;
        self.f.zero = !is_bit_set;
    }

    /// Executes `Res`: clears one bit of the register; the flags are left as they are.
    pub fn unset_bit(&mut self, index: U3, target: TargetRegister8)
        ensures
            *final(self) == old(self).after_res(index, target),
            forall|k: u8|
                k < 8 ==> bit_set(#[trigger] final(self).r8(target), k) == (k != index.index()
                    && bit_set(old(self).r8(target), k)),
    {
        let x = self.get_r8(target);
        let i = index.value();
        let v = x & !(1u8 << i);
        assert forall|k: u8| k < 8 implies bit_set(v, k) == (k != i && bit_set(x, k)) by {
            lemma_clear_bit(x, i, k);
        }
        self.set_r8(target, v);
    }

    /// Executes `Set`: sets one bit of the register; the flags are left as they are.
    pub fn set_bit(&mut self, index: U3, target: TargetRegister8)
        ensures
            *final(self) == old(self).after_set(index, target),
            forall|k: u8|
                k < 8 ==> bit_set(#[trigger] final(self).r8(target), k) == (k == index.index()
                    || bit_set(old(self).r8(target), k)),
    {
        let x = self.get_r8(target);
        let i = index.value();
        let v = x | (1u8 << i);
        assert forall|k: u8| k < 8 implies bit_set(v, k) == (k == i || bit_set(x, k)) by {
            lemma_set_bit(x, i, k);
        }
        self.set_r8(target, v);
    }

    /// Executes `Srl`: shifts right, bit 7 becomes 0.
    pub fn shift_right_logically(&mut self, target: TargetRegister8)
        ensures
            *final(self) == old(self).after_srl(target),
    {
        let x = self.get_r8(target);
        let v = x / 2;
        self.set_r8(target, v);
        self.f = FlagsRegister { zero: v == 0, subtract: false, half_carry: false, carry: x % 2 == 1 };
    }

    /// Executes `Sra`. In this core it shifts exactly as `Srl` does: bit 7 becomes 0.
    pub fn shift_right_arithmetically(&mut self, target: TargetRegister8)
        ensures
            *final(self) == old(self).after_srl(target),
    {
        let x = self.get_r8(target);
        let v = x / 2;
        self.set_r8(target, v);
        self.f = FlagsRegister { zero: v == 0, subtract: false, half_carry: false, carry: x % 2 == 1 };
    }

    /// Executes `Sla`: shifts left, bit 0 becomes 0.
    pub fn shift_left_arithmetically(&mut self, target: TargetRegister8)
        ensures
            *final(self) == old(self).after_sla(target),
    {
        let x = self.get_r8(target);
        let v = (x % 128) * 2;
        self.set_r8(target, v);
        self.f = FlagsRegister { zero: v == 0, subtract: false, half_carry: false, carry: x >= 128 };
    }

    /// Executes `Rr` (and `Rra` on A): rotates right through the carry flag.
    pub fn rotate_right_with_carry(&mut self, target: TargetRegister8)
        ensures
            *final(self) == old(self).after_rr(target),
    {
        let old_carry: u8 = if self.f.carry { 128 } else { 0 };
        let x = self.get_r8(target);
        let v = x / 2 + old_carry;
        self.set_r8(target, v);
        self.f = FlagsRegister { zero: v == 0, subtract: false, half_carry: false, carry: x % 2 == 1 };
    }

    /// Executes `Rl` (and `Rla` on A): rotates left through the carry flag.
    pub fn rotate_left_with_carry(&mut self, target: TargetRegister8)
        ensures
            *final(self) == old(self).after_rl(target),
    {
        let old_carry: u8 = if self.f.carry { 1 } else { 0 };
        let x = self.get_r8(target);
        let v = (x % 128) * 2 + old_carry;
        self.set_r8(target, v);
        self.f = FlagsRegister { zero: v == 0, subtract: false, half_carry: false, carry: x >= 128 };
    }

    /// Executes `Rrc` (and `Rrca` on A): rotates right, bit 0 moves to bit 7
    /// and into the carry flag.
    pub fn rotate_right_no_carry(&mut self, target: TargetRegister8)
        ensures
            *final(self) == old(self).after_rrc(target),
    {
        let x = self.get_r8(target);
        let v = x / 2 + 128 * (x % 2);
        self.set_r8(target, v);
        self.f = FlagsRegister { zero: v == 0, subtract: false, half_carry: false, carry: x % 2 == 1 };
    }

    /// Executes `Rlc` (and `Rlca` on A): shifts left with bit 7 kept in place
    /// and copied into the carry flag. The zero flag is always cleared.
    pub fn rotate_left_no_carry(&mut self, target: TargetRegister8)
        ensures
            *final(self) == old(self).after_rlc(target),
    {
        let x = self.get_r8(target);
        let v = if x >= 128 {
            128 + (x % 64) * 2
        } else {
            (x % 128) * 2
        };
        self.set_r8(target, v);
        self.f = FlagsRegister { zero: false, subtract: false, half_carry: false, carry: x >= 128 };
    }

    /// Executes `Swap`: exchanges the two nibbles and clears every flag.
    pub fn swap(&mut self, target: TargetRegister8)
        ensures
            *final(self) == old(self).after_swap(target),
    {
        let x = self.get_r8(target);
        let v = (x % 16) * 16 + x / 16;
        self.set_r8(target, v);
        self.f = FlagsRegister::new();
    }
}

/// Clearing bit `i` leaves every other bit as it was.
proof fn lemma_clear_bit(x: u8, i: u8, k: u8)
    requires
        i < 8,
        k < 8,
    ensures
        bit_set(x & !(1u8 << i), k) == (k != i && bit_set(x, k)),
{
    assert((((x & !(1u8 << i)) >> k) & 1 == 1) == (k != i && ((x >> k) & 1) == 1)) by (bit_vector)
        requires
            i < 8 && k < 8,
    ;
}

/// Setting bit `i` leaves every other bit as it was.
proof fn lemma_set_bit(x: u8, i: u8, k: u8)
    requires
        i < 8,
        k < 8,
    ensures
        bit_set(x | (1u8 << i), k) == (k == i || bit_set(x, k)),
{
    assert((((x | (1u8 << i)) >> k) & 1 == 1) == (k == i || ((x >> k) & 1) == 1)) by (bit_vector)
        requires
            i < 8 && k < 8,
    ;
}

} // verus!
