use vstd::prelude::*;
use crate::alu::{negate, negate_word, negated, negated_word};

verus! {

/// Whether an arithmetic instruction adds its operand or subtracts it.
#[derive(Clone, Copy, PartialEq, Eq, Debug, Structural)]
pub enum Operation {
    Add,
    Subtract,
}

impl Operation {
    pub open spec fn spec_operand(self, value: u8) -> u8 {
        match self {
            Operation::Add => value,
            Operation::Subtract => negated(value),
        }
    }

    pub open spec fn spec_operand_word(self, value: u16) -> u16 {
        match self {
            Operation::Add => value,
            Operation::Subtract => negated_word(value),
        }
    }

    /// The byte to hand to the adder: the operand itself for an addition,
    /// its negation for a subtraction.
    pub fn maybe_negate(self, value: u8) -> (r: u8)
        ensures
            r == self.spec_operand(value),
    {
        match self {
            Operation::Add => value,
            Operation::Subtract => negate(value),
        }
    }

    /// The word to hand to the adder: the operand itself for an addition,
    /// its negation for a subtraction.
    pub fn maybe_negate_word(self, value: u16) -> (r: u16)
        ensures
            r == self.spec_operand_word(value),
    {
        match self {
            Operation::Add => value,
            Operation::Subtract => negate_word(value),
        }
    }
}

} // verus!
