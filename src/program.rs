use vstd::prelude::*;
use crate::alu::{high_byte, low_byte};
use crate::opcodes::Opcode;

verus! {

/// An append-only byte stream of opcodes and their operands.
pub struct Program {
    bin: Vec<u8>,
}

impl View for Program {
    type V = Seq<u8>;

    closed spec fn view(&self) -> Seq<u8> {
        self.bin@
    }
}

impl Program {
    /// An empty program.
    pub fn new() -> (r: Program)
        ensures
            r@ == Seq::<u8>::empty(),
    {
        Program { bin: Vec::new() }
    }

    /// The bytes so far.
    pub fn raw(&self) -> (r: &Vec<u8>)
        ensures
            r@ == self@,
    {
        &self.bin
    }

    /// Appends an opcode.
    pub fn add(&mut self, opcode: Opcode)
        ensures
            final(self)@ == old(self)@.push(opcode.byte()),
    {
        self.bin.push(opcode.to_u8());
    }

    /// Appends an opcode and one operand byte.
    pub fn add_param(&mut self, opcode: Opcode, parameter: u8)
        ensures
            final(self)@ == old(self)@.push(opcode.byte()).push(parameter),
    {
        self.bin.push(opcode.to_u8());
        self.bin.push(parameter);
    }

    /// Appends an opcode and a word operand, low byte first.
    pub fn add_param_word(&mut self, opcode: Opcode, parameter: u16)
        ensures
            final(self)@ == old(self)@.push(opcode.byte()).push(low_byte(parameter)).push(
                high_byte(parameter),
            ),
    {
        let (high, low) = crate::alu::get_octets(parameter);
        self.bin.push(opcode.to_u8());
        self.bin.push(low);
        self.bin.push(high);
    }

    /// Appends an opcode and two operand bytes.
    pub fn add_params(&mut self, opcode: Opcode, parameter_1: u8, parameter_2: u8)
        ensures
            final(self)@ == old(self)@.push(opcode.byte()).push(parameter_1).push(parameter_2),
    {
        self.bin.push(opcode.to_u8());
        self.bin.push(parameter_1);
        self.bin.push(parameter_2);
    }

    /// Appends raw bytes.
    pub fn add_vector(&mut self, parameters: Vec<u8>)
        ensures
            final(self)@ == old(self)@ + parameters@,
    {
        let mut parameters = parameters;
        self.bin.append(&mut parameters);
    }
}

} // verus!
