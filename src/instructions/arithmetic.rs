use vstd::prelude::*;
use crate::alu::{self, AdderResult};
use crate::flags::Flag;
use crate::instruction::Instruction;
use crate::machine::Machine;
use crate::operation::Operation;
use crate::registers::{Register, RegisterPair};
use crate::semantics::{
    self,
    arithmetic_flags,
    byte_result_flags,
    increment_flags,
    pair_add_flags,
    perform,
    stored_result,
    word_result_flags,
};

verus! {

broadcast use crate::memory::Memory::lemma_size;

impl Machine {
    /// The byte-width core of arithmetic: `target := target op operand`
    /// through the adder, then the affected flags.
    fn operate_on_register(
        &mut self,
        operation: Operation,
        target: Register,
        operand: u8,
        affected_flags: &[Flag],
    )
        ensures
            final(self)@ == semantics::operate_on_register(
                old(self)@,
                operation,
                target,
                operand,
                affected_flags@,
            ),
    {
        let op1 = self.cpu.state.registers.get(target);
        let op2 = operation.maybe_negate(operand);
        let result = alu::add_octets(op1, op2);
        self.store_result(target, result, operation == Operation::Subtract, affected_flags);
    }

    /// Stores the adder's value in `target` and sets the affected flags from it.
    fn store_result(
        &mut self,
        target: Register,
        result: AdderResult<u8>,
        subtract: bool,
        affected_flags: &[Flag],
    )
        ensures
            final(self)@ == stored_result(old(self)@, target, result, subtract, affected_flags@),
    {
        self.cpu.state.registers.set(target, result.value);
        let values = [
            (Flag::Zero, result.value == 0x00),
            (Flag::Sign, result.value > 0x7F),
            (Flag::HalfCarry, result.half_carry),
            (Flag::ParityOverflow, result.overflow),
            (Flag::AddSubtract, subtract),
            (Flag::Carry, result.carry),
        ];
        assert(values@ =~= byte_result_flags(result, subtract));
        Flag::set_values(&mut self.cpu.state.status, affected_flags, &values);
    }

    /// The word-width core of arithmetic: `target := target op operand`
    /// through the adder, then the affected flags.
    fn operate_on_register_pair(
        &mut self,
        operation: Operation,
        target: RegisterPair,
        operand: u16,
        affected_flags: &[Flag],
    )
        ensures
            final(self)@ == semantics::operate_on_register_pair(
                old(self)@,
                operation,
                target,
                operand,
                affected_flags@,
            ),
    {
        let op1 = self.cpu.state.registers.get_word(target);
        let op2 = operation.maybe_negate_word(operand);
        let result = alu::add_words(op1, op2);
        self.cpu.state.registers.assign_word(target, result.value);
        let values = [
            (Flag::Zero, result.value == 0x0000),
            (Flag::Sign, result.value > 0x7FFF),
            (Flag::HalfCarry, result.half_carry),
            (Flag::ParityOverflow, result.overflow),
            (Flag::AddSubtract, operation == Operation::Subtract),
            (Flag::Carry, result.carry),
        ];
        assert(values@ =~= word_result_flags(result, operation == Operation::Subtract));
        Flag::set_values(&mut self.cpu.state.status, affected_flags, &values);
    }

    pub(crate) fn increment_register_wide(&mut self, target: RegisterPair) -> (cycles: u8)
        ensures
            (final(self)@, cycles) == perform(old(self)@, Instruction::IncrementPair(target)),
    {
        let none: [Flag; 0] = [];
        assert(none@ =~= seq![]);
        self.operate_on_register_pair(Operation::Add, target, 1, &none);
        6
    }

    pub(crate) fn decrement_register_wide(&mut self, target: RegisterPair) -> (cycles: u8)
        ensures
            (final(self)@, cycles) == perform(old(self)@, Instruction::DecrementPair(target)),
    {
        let none: [Flag; 0] = [];
        assert(none@ =~= seq![]);
        self.operate_on_register_pair(Operation::Subtract, target, 1, &none);
        6
    }

    pub(crate) fn add_register_pair_to_hl(&mut self, selector: RegisterPair) -> (cycles: u8)
        ensures
            (final(self)@, cycles) == perform(old(self)@, Instruction::AddPairToHl(selector)),
    {
        self.add_register_pair(RegisterPair::HL, selector)
    }

    fn add_register_pair(&mut self, target: RegisterPair, selector: RegisterPair) -> (cycles: u8)
        ensures
            final(self)@ == semantics::operate_on_register_pair(
                old(self)@,
                Operation::Add,
                target,
                old(self)@.registers.word(selector),
                pair_add_flags(),
            ),
            cycles == 11,
    {
        let operand = self.cpu.state.registers.get_word(selector);
        let affected = [Flag::Carry, Flag::HalfCarry, Flag::AddSubtract];
        assert(affected@ =~= pair_add_flags());
        self.operate_on_register_pair(Operation::Add, target, operand, &affected);
        11
    }

    /// The flags that 8-bit addition and subtraction affect.
    fn arithmetic_flags() -> (r: [Flag; 6])
        ensures
            r@ == arithmetic_flags(),
    {
        let r = [
            Flag::AddSubtract,
            Flag::Carry,
            Flag::HalfCarry,
            Flag::ParityOverflow,
            Flag::Sign,
            Flag::Zero,
        ];
        assert(r@ =~= arithmetic_flags());
        r
    }

    /// Adds `operand` into the accumulator (or subtracts it), affecting all
    /// six arithmetic flags.
    fn accumulate(&mut self, operation: Operation, operand: u8)
        ensures
            final(self)@ == semantics::operate_on_register(
                old(self)@,
                operation,
                Register::A,
                operand,
                arithmetic_flags(),
            ),
    {
        let affected = Machine::arithmetic_flags();
        self.operate_on_register(operation, Register::A, operand, &affected);
    }

    pub(crate) fn add_register(&mut self, selector: Register) -> (cycles: u8)
        ensures
            (final(self)@, cycles) == perform(old(self)@, Instruction::Add(selector)),
    {
        let operand = self.cpu.state.registers.get(selector);
        self.accumulate(Operation::Add, operand);
        4
    }

    pub(crate) fn add_carry_register(&mut self, selector: Register) -> (cycles: u8)
        ensures
            (final(self)@, cycles) == perform(old(self)@, Instruction::AddCarry(selector)),
    {
        let a = self.cpu.state.registers.a;
        let operand = self.cpu.state.registers.get(selector);
        let carry = Flag::Carry.get(&self.cpu.state.status);
        let result = alu::add_octets_with_carry(a, operand, carry);
        let affected = Machine::arithmetic_flags();
        self.store_result(Register::A, result, false, &affected);
        4
    }

    pub(crate) fn subtract_register(&mut self, selector: Register) -> (cycles: u8)
        ensures
            (final(self)@, cycles) == perform(old(self)@, Instruction::Subtract(selector)),
    {
        let operand = self.cpu.state.registers.get(selector);
        self.accumulate(Operation::Subtract, operand);
        4
    }

    pub(crate) fn subtract_carry_register(&mut self, selector: Register) -> (cycles: u8)
        ensures
            (final(self)@, cycles) == perform(old(self)@, Instruction::SubtractCarry(selector)),
    {
        let a = self.cpu.state.registers.a;
        let operand = self.cpu.state.registers.get(selector);
        let carry = Flag::Carry.get(&self.cpu.state.status);
        let result = alu::add_octets(a, alu::negate_with_carry(operand, carry));
        let affected = Machine::arithmetic_flags();
        self.store_result(Register::A, result, true, &affected);
        4
    }

    pub(crate) fn increment_register(&mut self, target: Register) -> (cycles: u8)
        ensures
            (final(self)@, cycles) == perform(old(self)@, Instruction::Increment(target)),
    {
        let affected = [
            Flag::AddSubtract,
            Flag::ParityOverflow,
            Flag::HalfCarry,
            Flag::Zero,
            Flag::Sign,
        ];
        assert(affected@ =~= increment_flags());
        self.operate_on_register(Operation::Add, target, 1, &affected);
        4
    }

    pub(crate) fn decrement_register(&mut self, target: Register) -> (cycles: u8)
        ensures
            (final(self)@, cycles) == perform(old(self)@, Instruction::Decrement(target)),
    {
        let affected = [
            Flag::AddSubtract,
            Flag::ParityOverflow,
            Flag::HalfCarry,
            Flag::Zero,
            Flag::Sign,
        ];
        assert(affected@ =~= increment_flags());
        self.operate_on_register(Operation::Subtract, target, 1, &affected);
        4
    }
}

} // verus!
