use vstd::prelude::*;
use crate::instruction::Instruction;
use crate::machine::Machine;
use crate::registers::RegisterPair;
use crate::semantics::{perform, pop_word, push_word};

verus! {

broadcast use crate::memory::Memory::lemma_size;

impl Machine {
    /// Writes the word's high byte below the stack pointer and its low byte
    /// below that, and moves the stack pointer down by two.
    fn push_word(&mut self, value: u16)
        ensures
            final(self)@ == push_word(old(self)@, value),
    {
        let (high, low) = crate::alu::get_octets(value);
        let sp = self.cpu.state.registers.get_word(RegisterPair::SP);
        self.ram.write_u8(sp.wrapping_sub(1), high);
        self.ram.write_u8(sp.wrapping_sub(2), low);
        self.cpu.state.registers.assign_word(RegisterPair::SP, sp.wrapping_sub(2));
    }

    /// Reads the word at the stack pointer, low byte first, and moves the
    /// stack pointer up by two.
    fn pop_word(&mut self) -> (r: u16)
        ensures
            (r, final(self)@) == pop_word(old(self)@),
    {
        let sp = self.cpu.state.registers.get_word(RegisterPair::SP);
        let value = self.ram.read_u16(sp);
        self.cpu.state.registers.assign_word(RegisterPair::SP, sp.wrapping_add(2));
        value
    }

    pub(crate) fn push_to_stack(&mut self, selector: RegisterPair) -> (cycles: u8)
        ensures
            (final(self)@, cycles) == perform(old(self)@, Instruction::Push(selector)),
    {
        let value = self.cpu.state.registers.get_word(selector);
        self.push_word(value);
        11
    }

    pub(crate) fn push_program_counter_to_stack(&mut self)
        ensures
            final(self)@ == push_word(old(self)@, old(self)@.program_counter),
    {
        let pc = self.cpu.state.program_counter;
        self.push_word(pc);
    }

    pub(crate) fn pop_from_stack(&mut self, selector: RegisterPair) -> (cycles: u8)
        ensures
            (final(self)@, cycles) == perform(old(self)@, Instruction::Pop(selector)),
    {
        let value = self.pop_word();
        self.cpu.state.registers.assign_word(selector, value);
        10
    }

    pub(crate) fn pop_stack_to_program_counter(&mut self)
        ensures
            ({
                let (dest, m) = pop_word(old(self)@);
                final(self)@ == crate::semantics::MachineState { program_counter: dest, ..m }
            }),
    {
        let dest = self.pop_word();
        self.cpu.state.program_counter = dest;
    }
}

} // verus!
