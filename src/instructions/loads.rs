use vstd::prelude::*;
use crate::instruction::Instruction;
use crate::machine::Machine;
use crate::registers::{Register, RegisterPair};
use crate::semantics::perform;

verus! {

broadcast use crate::memory::Memory::lemma_size;

impl Machine {
    pub(crate) fn load_register_into_register(
        &mut self,
        source: Register,
        dest: Register,
    ) -> (cycles: u8)
        ensures
            (final(self)@, cycles) == perform(old(self)@, Instruction::Move(dest, source)),
    {
        let value = self.cpu.state.registers.get(source);
        self.cpu.state.registers.set(dest, value);
        4
    }

    /// Loads a register from the byte that a pair points to.
    pub(crate) fn load_memory_into_register(
        &mut self,
        pointer: RegisterPair,
        dest: Register,
    ) -> (cycles: u8)
        ensures
            (final(self)@, cycles) == perform(
                old(self)@,
                Instruction::LoadFromPointer(dest, pointer),
            ),
    {
        let address = self.cpu.state.registers.get_word(pointer);
        let value = self.ram.read_u8(address);
        self.cpu.state.registers.set(dest, value);
        7
    }

    /// Stores a register at the byte that a pair points to.
    pub(crate) fn load_register_into_memory(
        &mut self,
        source: Register,
        pointer: RegisterPair,
    ) -> (cycles: u8)
        ensures
            (final(self)@, cycles) == perform(
                old(self)@,
                Instruction::StoreToPointer(pointer, source),
            ),
    {
        let address = self.cpu.state.registers.get_word(pointer);
        let value = self.cpu.state.registers.get(source);
        self.ram.write_u8(address, value);
        7
    }

    /// Stores a register at the address that follows the opcode.
    pub(crate) fn load_register_into_param_memory(&mut self, source: Register) -> (cycles: u8)
        ensures
            (final(self)@, cycles) == perform(old(self)@, Instruction::StoreAbsolute(source)),
    {
        let address = self.next_word();
        let value = self.cpu.state.registers.get(source);
        self.ram.write_u8(address, value);
        13
    }

    /// Loads a register from the address that follows the opcode.
    pub(crate) fn load_param_memory_into_register(&mut self, dest: Register) -> (cycles: u8)
        ensures
            (final(self)@, cycles) == perform(old(self)@, Instruction::LoadAbsolute(dest)),
    {
        let address = self.next_word();
        let value = self.ram.read_u8(address);
        self.cpu.state.registers.set(dest, value);
        13
    }

    /// Stores a pair, low byte first, at the address that follows the opcode.
    pub(crate) fn load_wide_register_into_param_memory(
        &mut self,
        source: RegisterPair,
    ) -> (cycles: u8)
        ensures
            (final(self)@, cycles) == perform(old(self)@, Instruction::StorePairAbsolute(source)),
    {
        let address = self.next_word();
        let value = self.cpu.state.registers.get_word(source);
        self.ram.write_u16(address, value);
        16
    }

    /// Loads a pair from the word at the address that follows the opcode.
    pub(crate) fn load_param_memory_into_wide_register(
        &mut self,
        dest: RegisterPair,
    ) -> (cycles: u8)
        ensures
            (final(self)@, cycles) == perform(old(self)@, Instruction::LoadPairAbsolute(dest)),
    {
        let address = self.next_word();
        let value = self.ram.read_u16(address);
        self.cpu.state.registers.assign_word(dest, value);
        16
    }

    /// Stores the byte that follows the opcode at the byte that a pair
    /// points to.
    pub(crate) fn load_param_into_memory(&mut self, pointer: RegisterPair) -> (cycles: u8)
        ensures
            (final(self)@, cycles) == perform(
                old(self)@,
                Instruction::StoreImmediateToPointer(pointer),
            ),
    {
        let address = self.cpu.state.registers.get_word(pointer);
        let value = self.next_byte();
        self.ram.write_u8(address, value);
        10
    }

    /// Loads a register with the byte that follows the opcode.
    pub(crate) fn load_into_register(&mut self, dest: Register) -> (cycles: u8)
        ensures
            (final(self)@, cycles) == perform(old(self)@, Instruction::LoadImmediate(dest)),
    {
        let value = self.next_byte();
        self.cpu.state.registers.set(dest, value);
        7
    }

    /// Loads a pair with the word that follows the opcode.
    pub(crate) fn load_into_register_pair(&mut self, dest: RegisterPair) -> (cycles: u8)
        ensures
            (final(self)@, cycles) == perform(old(self)@, Instruction::LoadPairImmediate(dest)),
    {
        let (high, low) = self.next_byte_pair();
        self.cpu.state.registers.assign_bytes(dest, (high, low));
        10
    }
}

} // verus!
