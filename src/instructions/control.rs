use vstd::prelude::*;
use crate::instruction::{Condition, Instruction};
use crate::machine::Machine;
use crate::semantics::perform;

verus! {

broadcast use crate::memory::Memory::lemma_size;

impl Machine {
    pub(crate) fn nop(&mut self) -> (cycles: u8)
        ensures
            (final(self)@, cycles) == perform(old(self)@, Instruction::Nop),
    {
        4
    }

    pub(crate) fn halt(&mut self) -> (cycles: u8)
        ensures
            (final(self)@, cycles) == perform(old(self)@, Instruction::Halt),
    {
        self.cpu.halt();
        4
    }

    /// Reads the destination word and jumps to it when the condition holds.
    pub(crate) fn jump(&mut self, condition: Condition) -> (cycles: u8)
        ensures
            (final(self)@, cycles) == perform(old(self)@, Instruction::Jump(condition)),
    {
        let dest = self.next_word();
        if condition.evaluate(self.cpu.state.status) {
            self.cpu.goto(dest);
        }
        10
    }

    /// Reads the destination word; when the condition holds, pushes the
    /// return address and jumps.
    pub(crate) fn call(&mut self, condition: Condition) -> (cycles: u8)
        ensures
            (final(self)@, cycles) == perform(old(self)@, Instruction::Call(condition)),
    {
        let dest = self.next_word();
        if condition.evaluate(self.cpu.state.status) {
            self.push_program_counter_to_stack();
            self.cpu.state.program_counter = dest;
            17
        } else {
            10
        }
    }

    pub(crate) fn ret(&mut self) -> (cycles: u8)
        ensures
            (final(self)@, cycles) == perform(old(self)@, Instruction::Return),
    {
        self.pop_stack_to_program_counter();
        10
    }

    pub(crate) fn ret_conditional(&mut self, condition: Condition) -> (cycles: u8)
        ensures
            (final(self)@, cycles) == perform(old(self)@, Instruction::ReturnIf(condition)),
    {
        if condition.evaluate(self.cpu.state.status) {
            self.pop_stack_to_program_counter();
            11
        } else {
            5
        }
    }
}

} // verus!
