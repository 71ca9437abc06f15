use vstd::prelude::*;
use crate::flags::Flag;
use crate::instruction::{Instruction, LogicOp};
use crate::machine::Machine;
use crate::registers::Register;
use crate::semantics::{logic, logic_flag_values, logic_flags, ones, perform};

verus! {

broadcast use crate::memory::Memory::lemma_size;

/// Whether a byte has an even number of set bits.
fn even_parity(value: u8) -> (r: bool)
    ensures
        r == (ones(value) % 2 == 0),
{
    let mut x: u8 = value;
    let mut even = true;
    let ghost mut seen: nat = 0;
    while x > 0
        invariant
            seen + ones(x) == ones(value),
            even == (seen % 2 == 0),
        decreases x,
    {
        if x % 2 == 1 {
            even = !even;
        }
        proof {
            seen = seen + (x % 2) as nat;
        }
        x = x / 2;
    }
    even
}

impl Machine {
    pub(crate) fn set_carry_flag(&mut self) -> (cycles: u8)
        ensures
            (final(self)@, cycles) == perform(old(self)@, Instruction::SetCarry),
    {
        let affected = [Flag::Carry, Flag::HalfCarry, Flag::AddSubtract];
        let values = [(Flag::Carry, true), (Flag::HalfCarry, false), (Flag::AddSubtract, false)];
        assert(affected@ =~= seq![Flag::Carry, Flag::HalfCarry, Flag::AddSubtract]);
        assert(values@ =~= seq![
            (Flag::Carry, true),
            (Flag::HalfCarry, false),
            (Flag::AddSubtract, false),
        ]);
        Flag::set_values(&mut self.cpu.state.status, &affected, &values);
        4
    }

    pub(crate) fn complement_carry_flag(&mut self) -> (cycles: u8)
        ensures
            (final(self)@, cycles) == perform(old(self)@, Instruction::ComplementCarry),
    {
        let previous = Flag::Carry.get(&self.cpu.state.status);
        let affected = [Flag::Carry, Flag::HalfCarry, Flag::AddSubtract];
        let values = [
            (Flag::Carry, !previous),
            (Flag::HalfCarry, previous),
            (Flag::AddSubtract, false),
        ];
        assert(affected@ =~= seq![Flag::Carry, Flag::HalfCarry, Flag::AddSubtract]);
        assert(values@ =~= seq![
            (Flag::Carry, !previous),
            (Flag::HalfCarry, previous),
            (Flag::AddSubtract, false),
        ]);
        Flag::set_values(&mut self.cpu.state.status, &affected, &values);
        4
    }

    /// Complements the accumulator bit by bit.
    pub(crate) fn complement_accumulator(&mut self) -> (cycles: u8)
        ensures
            (final(self)@, cycles) == perform(old(self)@, Instruction::Complement),
    {
        self.cpu.state.registers.a = !self.cpu.state.registers.a;
        let affected = [Flag::AddSubtract, Flag::HalfCarry];
        let values = [(Flag::AddSubtract, true), (Flag::HalfCarry, true)];
        assert(affected@ =~= seq![Flag::AddSubtract, Flag::HalfCarry]);
        assert(values@ =~= seq![(Flag::AddSubtract, true), (Flag::HalfCarry, true)]);
        Flag::set_values(&mut self.cpu.state.status, &affected, &values);
        4
    }

    pub(crate) fn bitwise_with_register(
        &mut self,
        selector: Register,
        operation: LogicOp,
    ) -> (cycles: u8)
        ensures
            (final(self)@, cycles) == perform(
                old(self)@,
                Instruction::Bitwise(operation, selector),
            ),
    {
        let operand = self.cpu.state.registers.get(selector);
        self.bitwise_operation(operand, operation);
        4
    }

    pub(crate) fn bitwise_with_value(&mut self, operation: LogicOp) -> (cycles: u8)
        ensures
            (final(self)@, cycles) == perform(old(self)@, Instruction::BitwiseValue(operation)),
    {
        let operand = self.next_byte();
        self.bitwise_operation(operand, operation);
        7
    }

    /// Combines the accumulator with `operand`, stores the result in the
    /// accumulator and sets the parity, zero and sign flags from it.
    fn bitwise_operation(&mut self, operand: u8, operation: LogicOp)
        ensures
            final(self)@ == crate::semantics::bitwise_operation(old(self)@, operation, operand),
    {
        let op1 = self.cpu.state.registers.a;
        let result = match operation {
            LogicOp::And => op1 & operand,
            LogicOp::Or => op1 | operand,
            LogicOp::Xor => op1 ^ operand,
        };
        assert(result == logic(operation, op1, operand));
        let parity = even_parity(result);
        self.cpu.state.registers.a = result;
        let affected = [
            Flag::ParityOverflow,
            Flag::Carry,
            Flag::HalfCarry,
            Flag::AddSubtract,
            Flag::Zero,
            Flag::Sign,
        ];
        let values = [
            (Flag::ParityOverflow, parity),
            (Flag::Carry, false),
            (Flag::HalfCarry, operation == LogicOp::And),
            (Flag::AddSubtract, false),
            (Flag::Zero, result == 0x00),
            (Flag::Sign, result > 0x7F),
        ];
        assert(affected@ =~= logic_flags());
        assert(values@ =~= logic_flag_values(operation, result));
        Flag::set_values(&mut self.cpu.state.status, &affected, &values);
    }

    /// Rotates the accumulator left: bit 7 goes to bit 0 and to the carry.
    pub(crate) fn rotate_accumulator_left(&mut self) -> (cycles: u8)
        ensures
            (final(self)@, cycles) == perform(old(self)@, Instruction::RotateLeft),
    {
        let old_value = self.cpu.state.registers.a;
        let top = old_value >> 7;
        let new_value = (old_value << 1) | top;
        assert(old_value >> 7 == old_value / 128) by (bit_vector);
        assert((old_value << 1) | (old_value >> 7) == (old_value * 2) % 256 + old_value / 128)
            by (bit_vector);
        self.cpu.state.registers.a = new_value;
        let affected = [Flag::Carry, Flag::HalfCarry, Flag::AddSubtract];
        let values = [
            (Flag::Carry, top == 1),
            (Flag::HalfCarry, false),
            (Flag::AddSubtract, false),
        ];
        assert(affected@ =~= seq![Flag::Carry, Flag::HalfCarry, Flag::AddSubtract]);
        assert(values@ =~= seq![
            (Flag::Carry, old_value >= 0x80),
            (Flag::HalfCarry, false),
            (Flag::AddSubtract, false),
        ]);
        Flag::set_values(&mut self.cpu.state.status, &affected, &values);
        4
    }
}

} // verus!
