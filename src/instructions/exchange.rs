use vstd::prelude::*;
use crate::instruction::Instruction;
use crate::machine::Machine;
use crate::registers::RegisterPair;
use crate::semantics::perform;

verus! {

broadcast use crate::memory::Memory::lemma_size;

impl Machine {
    /// Exchanges A and F with the shadow set's.
    pub(crate) fn shadow_exchange_af(&mut self) -> (cycles: u8)
        ensures
            (final(self)@, cycles) == perform(old(self)@, Instruction::ExchangeAf),
    {
        let regs = self.cpu.state.registers;
        let alt = self.cpu.state.alt_registers;
        self.cpu.state.registers.a = alt.a;
        self.cpu.state.registers.f = alt.f;
        self.cpu.state.alt_registers.a = regs.a;
        self.cpu.state.alt_registers.f = regs.f;
        4
    }

    /// Exchanges B, C, D, E, H and L with the shadow set's.
    pub(crate) fn shadow_exchange_bc_de_hl(&mut self) -> (cycles: u8)
        ensures
            (final(self)@, cycles) == perform(old(self)@, Instruction::ExchangeShadow),
    {
        let regs = self.cpu.state.registers;
        let alt = self.cpu.state.alt_registers;
        self.cpu.state.registers.b = alt.b;
        self.cpu.state.registers.c = alt.c;
        self.cpu.state.registers.d = alt.d;
        self.cpu.state.registers.e = alt.e;
        self.cpu.state.registers.h = alt.h;
        self.cpu.state.registers.l = alt.l;
        self.cpu.state.alt_registers.b = regs.b;
        self.cpu.state.alt_registers.c = regs.c;
        self.cpu.state.alt_registers.d = regs.d;
        self.cpu.state.alt_registers.e = regs.e;
        self.cpu.state.alt_registers.h = regs.h;
        self.cpu.state.alt_registers.l = regs.l;
        4
    }

    /// Exchanges DE with HL.
    pub(crate) fn exchange_de_with_hl(&mut self) -> (cycles: u8)
        ensures
            (final(self)@, cycles) == perform(old(self)@, Instruction::ExchangeDeHl),
    {
        let regs = self.cpu.state.registers;
        self.cpu.state.registers.d = regs.h;
        self.cpu.state.registers.e = regs.l;
        self.cpu.state.registers.h = regs.d;
        self.cpu.state.registers.l = regs.e;
        4
    }

    /// Exchanges L with the byte at the stack pointer and H with the byte
    /// above it.
    pub(crate) fn exchange_memory_from_sp_with_hl(&mut self) -> (cycles: u8)
        ensures
            (final(self)@, cycles) == perform(old(self)@, Instruction::ExchangeStackHl),
    {
        let low_address = self.cpu.state.registers.get_word(RegisterPair::SP);
        let high_address = low_address.wrapping_add(1);
        let low = self.ram.read_u8(low_address);
        let high = self.ram.read_u8(high_address);
        let h = self.cpu.state.registers.h;
        let l = self.cpu.state.registers.l;
        self.ram.write_u8(low_address, l);
        self.ram.write_u8(high_address, h);
        self.cpu.state.registers.h = high;
        self.cpu.state.registers.l = low;
        19
    }
}

} // verus!
