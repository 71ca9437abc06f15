use vstd::prelude::*;
use crate::alu::get_word;
use crate::registers::{Register, RegisterPair, Registers};

verus! {

/// Everything the processor holds but its run state.
pub struct State {
    pub registers: Registers,
    pub alt_registers: Registers,
    pub program_counter: u16,
    pub status: u8,
}

impl State {
    /// Fresh registers in both sets, counter and status zero.
    pub fn new() -> (r: State)
        ensures
            r.registers == Registers::spec_new(),
            r.alt_registers == Registers::spec_new(),
            r.program_counter == 0,
            r.status == 0,
    {
        State {
            registers: Registers::new(),
            alt_registers: Registers::new(),
            program_counter: 0,
            status: 0,
        }
    }
}

/// Whether the processor executes instructions.
#[derive(Clone, Copy, PartialEq, Eq, Debug, Structural)]
pub enum RunState {
    Halted,
    Running,
}

pub struct Processor {
    pub state: State,
    pub run_state: RunState,
}

impl Processor {
    pub open spec fn halted(&self) -> bool {
        self.run_state == RunState::Halted
    }

    /// A processor in its fresh state, halted.
    pub fn new() -> (r: Processor)
        ensures
            r.halted(),
            r.state.registers == Registers::spec_new(),
            r.state.alt_registers == Registers::spec_new(),
            r.state.program_counter == 0,
            r.state.status == 0,
    {
        Processor { state: State::new(), run_state: RunState::Halted }
    }

    pub fn is_halted(&self) -> (r: bool)
        ensures
            r == self.halted(),
    {
        self.run_state == RunState::Halted
    }

    pub fn halt(&mut self)
        ensures
            final(self).halted(),
            final(self).state == old(self).state,
    {
        self.run_state = RunState::Halted;
    }

    pub fn unhalt(&mut self)
        ensures
            !final(self).halted(),
            final(self).state == old(self).state,
    {
        self.run_state = RunState::Running;
    }

    /// Sets the program counter.
    pub fn goto(&mut self, address: u16)
        ensures
            final(self).state.program_counter == address,
            final(self).state.registers == old(self).state.registers,
            final(self).state.alt_registers == old(self).state.alt_registers,
            final(self).state.status == old(self).state.status,
            final(self).halted() == old(self).halted(),
    {
        self.state.program_counter = address;
    }

    pub fn get_register(&self, selector: Register) -> (r: u8)
        ensures
            r == self.state.registers.reg(selector),
    {
        self.state.registers.get(selector)
    }

    pub fn get_register_pair(&self, selector: RegisterPair) -> (r: u16)
        ensures
            r == self.state.registers.word(selector),
    {
        let (high, low) = self.state.registers.get_bytes(selector);
        get_word(high, low)
    }
}

} // verus!
