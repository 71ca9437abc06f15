use vstd::prelude::*;
use crate::flags::{flag_bit, Flag};
use crate::registers::{Register, RegisterPair};

verus! {

/// The status predicate of a conditional jump, call or return.
#[derive(Clone, Copy, PartialEq, Eq, Debug, Structural)]
pub enum Condition {
    Always,
    NonZero,
    Zero,
    NoCarry,
    Carry,
    /// Taken when the parity/overflow flag is set. After a bitwise
    /// operation a set flag means even parity, so despite the mnemonic this
    /// branches on even parity there.
    ParityOdd,
    /// Taken when the parity/overflow flag is clear.
    ParityEven,
    Positive,
    Negative,
}

/// The bitwise operations on the accumulator.
#[derive(Clone, Copy, PartialEq, Eq, Debug, Structural)]
pub enum LogicOp {
    And,
    Or,
    Xor,
}

/// An instruction family with its operand selectors; each opcode stands for
/// one of these.
#[derive(Clone, Copy, PartialEq, Eq, Debug, Structural)]
pub enum Instruction {
    Nop,
    Halt,
    /// Jump to the immediate word when the condition holds.
    Jump(Condition),
    /// Push the return address and jump to the immediate word when the
    /// condition holds.
    Call(Condition),
    Return,
    ReturnIf(Condition),
    Increment(Register),
    Decrement(Register),
    IncrementPair(RegisterPair),
    DecrementPair(RegisterPair),
    AddPairToHl(RegisterPair),
    Add(Register),
    AddCarry(Register),
    Subtract(Register),
    SubtractCarry(Register),
    Bitwise(LogicOp, Register),
    BitwiseValue(LogicOp),
    SetCarry,
    ComplementCarry,
    Complement,
    RotateLeft,
    ExchangeAf,
    ExchangeShadow,
    ExchangeDeHl,
    ExchangeStackHl,
    /// Copy the second register into the first.
    Move(Register, Register),
    /// Load the register from the byte that the pair points to.
    LoadFromPointer(Register, RegisterPair),
    /// Store the register at the byte that the pair points to.
    StoreToPointer(RegisterPair, Register),
    LoadImmediate(Register),
    LoadPairImmediate(RegisterPair),
    StoreAbsolute(Register),
    LoadAbsolute(Register),
    StorePairAbsolute(RegisterPair),
    LoadPairAbsolute(RegisterPair),
    StoreImmediateToPointer(RegisterPair),
    Push(RegisterPair),
    Pop(RegisterPair),
}

impl Condition {
    /// Whether the condition holds of the status byte.
    pub open spec fn holds(self, status: u8) -> bool {
        match self {
            Condition::Always => true,
            Condition::NonZero => !flag_bit(status, Flag::Zero),
            Condition::Zero => flag_bit(status, Flag::Zero),
            Condition::NoCarry => !flag_bit(status, Flag::Carry),
            Condition::Carry => flag_bit(status, Flag::Carry),
            Condition::ParityOdd => flag_bit(status, Flag::ParityOverflow),
            Condition::ParityEven => !flag_bit(status, Flag::ParityOverflow),
            Condition::Positive => !flag_bit(status, Flag::Sign),
            Condition::Negative => flag_bit(status, Flag::Sign),
        }
    }

    /// Evaluates the condition against the status byte.
    pub fn evaluate(self, status: u8) -> (r: bool)
        ensures
            r == self.holds(status),
    {
        match self {
            Condition::Always => true,
            Condition::NonZero => !Flag::Zero.get(&status),
            Condition::Zero => Flag::Zero.get(&status),
            Condition::NoCarry => !Flag::Carry.get(&status),
            Condition::Carry => Flag::Carry.get(&status),
            Condition::ParityOdd => Flag::ParityOverflow.get(&status),
            Condition::ParityEven => !Flag::ParityOverflow.get(&status),
            Condition::Positive => !Flag::Sign.get(&status),
            Condition::Negative => Flag::Sign.get(&status),
        }
    }
}

} // verus!
