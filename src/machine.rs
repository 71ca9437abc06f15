use vstd::prelude::*;
use crate::instruction::Instruction;
use crate::memory::Memory;
use crate::opcodes::Opcode;
use crate::processor::Processor;
use crate::program::Program;
use crate::registers::Registers;
use crate::semantics::{
    clocked,
    fetch,
    fetch_word,
    perform,
    run,
    step,
    with_memory,
    ExecutionError,
    MachineState,
};

verus! {

broadcast use Memory::lemma_size;

/// A processor wired to a memory.
pub struct Machine {
    pub cpu: Processor,
    pub ram: Memory,
    /// The cycle costs of the executed instructions, summed modulo 2^64.
    pub cycles: u64,
}

impl View for Machine {
    type V = MachineState;

    open spec fn view(&self) -> MachineState {
        MachineState {
            registers: self.cpu.state.registers,
            alt_registers: self.cpu.state.alt_registers,
            program_counter: self.cpu.state.program_counter,
            status: self.cpu.state.status,
            halted: self.cpu.halted(),
            memory: self.ram@,
            cycles: self.cycles,
        }
    }
}

/// The state from which a run at `address` starts: the counter there and
/// the processor running.
pub open spec fn started_at(m: MachineState, address: u16) -> MachineState {
    MachineState { program_counter: address, halted: false, ..m }
}

/// `memory` with `program` written from `address` on.
pub open spec fn loaded(memory: Seq<u8>, program: Seq<u8>, address: u16) -> Seq<u8> {
    Seq::new(
        65536,
        |i: int|
            if address <= i < address + program.len() {
                program[i - address]
            } else {
                memory[i]
            },
    )
}

/// The bound on the number of instructions in one run.
pub const STEP_LIMIT: u64 = 0xFFFF_FFFF_FFFF_FFFF;

impl Machine {
    /// A halted processor in its fresh state over a memory of zeros.
    pub fn new() -> (r: Machine)
        ensures
            r@.halted,
            r@.registers == Registers::spec_new(),
            r@.alt_registers == Registers::spec_new(),
            r@.program_counter == 0,
            r@.status == 0,
            r@.memory == Seq::new(65536, |i: int| 0u8),
            r@.cycles == 0,
    {
        Machine { cpu: Processor::new(), ram: Memory::new(), cycles: 0 }
    }

    /// Writes the program into memory from `start_address` on, if it fits
    /// below the top of the address space; otherwise writes nothing.
    /// Returns whether it fit.
    pub fn load_at(&mut self, program: &Program, start_address: u16) -> (r: bool)
        ensures
            r == (start_address + program@.len() <= 65536),
            r ==> final(self)@ == with_memory(
                old(self)@,
                loaded(old(self)@.memory, program@, start_address),
            ),
            !r ==> final(self)@ == old(self)@,
    {
        let bytes = program.raw();
        let will_fit = bytes.len() <= 65536 - start_address as usize;
        if will_fit {
            let mut i: usize = 0;
            while i < bytes.len()
                invariant
                    i <= bytes.len(),
                    start_address + bytes@.len() <= 65536,
                    bytes@ == program@,
                    self@ == with_memory(old(self)@, self@.memory),
                    self@.memory.len() == 65536,
                    forall|j: int|
                        0 <= j < 65536 ==> #[trigger] self@.memory[j] == if start_address <= j
                            < start_address + i {
                            bytes@[j - start_address]
                        } else {
                            old(self)@.memory[j]
                        },
                decreases bytes.len() - i,
            {
                let address = (start_address as usize + i) as u16;
                self.ram.write_u8(address, bytes[i]);
                i = i + 1;
            }
            assert(self@.memory =~= loaded(old(self)@.memory, program@, start_address));
        }
        will_fit
    }

    /// Loads the program at address zero.
    pub fn load(&mut self, program: &Program) -> (r: bool)
        ensures
            r == (program@.len() <= 65536),
            r ==> final(self)@ == with_memory(old(self)@, loaded(old(self)@.memory, program@, 0)),
            !r ==> final(self)@ == old(self)@,
    {
        self.load_at(program, 0)
    }

    /// Restarts the processor at `address` and executes until it halts.
    /// Stops early with an error at a byte that decodes to no instruction,
    /// or after `STEP_LIMIT` instructions.
    pub fn start_at(&mut self, address: u16) -> (r: Result<(), ExecutionError>)
        ensures
            (final(self)@, r) == run(started_at(old(self)@, address), STEP_LIMIT as nat),
            (r is Ok) ==> final(self)@.halted,
    {
        self.cpu.halt();
        self.cpu.goto(address);
        self.cpu.unhalt();
        let mut fuel: u64 = STEP_LIMIT;
        while !self.cpu.is_halted()
            invariant
                run(self@, fuel as nat) == run(started_at(old(self)@, address), STEP_LIMIT as nat),
            decreases fuel,
        {
            if fuel == 0 {
                return Err(ExecutionError::StepLimit);
            }
            fuel = fuel - 1;
            match self.execute() {
                Ok(_) => {},
                Err(e) => {
                    return Err(e);
                },
            }
        }
        Ok(())
    }

    /// Runs from address zero.
    pub fn start(&mut self) -> (r: Result<(), ExecutionError>)
        ensures
            (final(self)@, r) == run(started_at(old(self)@, 0), STEP_LIMIT as nat),
            (r is Ok) ==> final(self)@.halted,
    {
        self.start_at(0)
    }

    /// Executes one instruction: fetches the opcode byte at the program
    /// counter, advances the counter, performs the instruction and counts
    /// its cycles. Returns the instruction's cycle cost, or the byte if it
    /// encodes no instruction.
    pub fn execute(&mut self) -> (r: Result<u8, ExecutionError>)
        ensures
            (final(self)@, r) == step(old(self)@),
    {
        proof {
            reveal(step);
        }
        let byte = self.next_byte();
        match Opcode::from_u8(byte) {
            Some(opcode) => {
                let cycles = self.perform(opcode.instruction());
                self.clock(cycles);
                Ok(cycles)
            },
            None => Err(ExecutionError::UnknownOpcode(byte)),
        }
    }

    /// Counts the cycle cost of an executed instruction.
    pub fn clock(&mut self, tstates: u8)
        ensures
            final(self)@ == clocked(old(self)@, tstates),
    {
        self.cycles = self.cycles.wrapping_add(tstates as u64);
    }

    /// Performs a decoded instruction; returns its cycle cost.
    fn perform(&mut self, instruction: Instruction) -> (cycles: u8)
        ensures
            (final(self)@, cycles) == perform(old(self)@, instruction),
    {
        match instruction {
            Instruction::Nop => self.nop(),
            Instruction::Halt => self.halt(),
            Instruction::Jump(c) => self.jump(c),
            Instruction::Call(c) => self.call(c),
            Instruction::Return => self.ret(),
            Instruction::ReturnIf(c) => self.ret_conditional(c),
            Instruction::Increment(r) => self.increment_register(r),
            Instruction::Decrement(r) => self.decrement_register(r),
            Instruction::IncrementPair(p) => self.increment_register_wide(p),
            Instruction::DecrementPair(p) => self.decrement_register_wide(p),
            Instruction::AddPairToHl(p) => self.add_register_pair_to_hl(p),
            Instruction::Add(r) => self.add_register(r),
            Instruction::AddCarry(r) => self.add_carry_register(r),
            Instruction::Subtract(r) => self.subtract_register(r),
            Instruction::SubtractCarry(r) => self.subtract_carry_register(r),
            Instruction::Bitwise(op, r) => self.bitwise_with_register(r, op),
            Instruction::BitwiseValue(op) => self.bitwise_with_value(op),
            Instruction::SetCarry => self.set_carry_flag(),
            Instruction::ComplementCarry => self.complement_carry_flag(),
            Instruction::Complement => self.complement_accumulator(),
            Instruction::RotateLeft => self.rotate_accumulator_left(),
            Instruction::ExchangeAf => self.shadow_exchange_af(),
            Instruction::ExchangeShadow => self.shadow_exchange_bc_de_hl(),
            Instruction::ExchangeDeHl => self.exchange_de_with_hl(),
            Instruction::ExchangeStackHl => self.exchange_memory_from_sp_with_hl(),
            Instruction::Move(d, s) => self.load_register_into_register(s, d),
            Instruction::LoadFromPointer(r, p) => self.load_memory_into_register(p, r),
            Instruction::StoreToPointer(p, r) => self.load_register_into_memory(r, p),
            Instruction::LoadImmediate(r) => self.load_into_register(r),
            Instruction::LoadPairImmediate(p) => self.load_into_register_pair(p),
            Instruction::StoreAbsolute(r) => self.load_register_into_param_memory(r),
            Instruction::LoadAbsolute(r) => self.load_param_memory_into_register(r),
            Instruction::StorePairAbsolute(p) => self.load_wide_register_into_param_memory(p),
            Instruction::LoadPairAbsolute(p) => self.load_param_memory_into_wide_register(p),
            Instruction::StoreImmediateToPointer(p) => self.load_param_into_memory(p),
            Instruction::Push(p) => self.push_to_stack(p),
            Instruction::Pop(p) => self.pop_from_stack(p),
        }
    }

    /// Reads the byte at the program counter and advances the counter; at
    /// the top of the address space the processor halts instead.
    pub(crate) fn next_byte(&mut self) -> (r: u8)
        ensures
            (r, final(self)@) == fetch(old(self)@),
    {
        let pc = self.cpu.state.program_counter;
        let val = self.ram.read_u8(pc);
        if pc == 0xFFFF {
            self.cpu.halt();
        } else {
            self.cpu.state.program_counter = pc + 1;
        }
        val
    }

    /// Reads a little-endian word as (high, low).
    pub(crate) fn next_byte_pair(&mut self) -> (r: (u8, u8))
        ensures
            ({
                let (w, m) = fetch_word(old(self)@);
                r == (crate::alu::high_byte(w), crate::alu::low_byte(w)) && final(self)@ == m
            }),
    {
        let low = self.next_byte();
        let high = self.next_byte();
        (high, low)
    }

    /// Reads a little-endian word.
    pub(crate) fn next_word(&mut self) -> (r: u16)
        ensures
            (r, final(self)@) == fetch_word(old(self)@),
    {
        let low = self.next_byte();
        let high = self.next_byte();
        crate::alu::get_word(high, low)
    }
}

} // verus!
