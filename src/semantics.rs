use vstd::prelude::*;
use crate::alu::{
    high_byte,
    low_byte,
    negated_with_carry,
    octet_sum,
    octet_sum_with_carry,
    word_of,
    word_sum,
    AdderResult,
};
use crate::flags::{apply_flags, flag_bit, lemma_apply_flags, Flag};
use crate::instruction::{Condition, Instruction, LogicOp};
use crate::memory::{next_address, with_word_at, word_at};
use crate::opcodes::{opcode_of, Opcode};
use crate::operation::Operation;
use crate::registers::{Register, RegisterPair, Registers};

verus! {

/// The whole observable state of a machine.
pub struct MachineState {
    pub registers: Registers,
    pub alt_registers: Registers,
    pub program_counter: u16,
    pub status: u8,
    pub halted: bool,
    pub memory: Seq<u8>,
    /// The cycle costs of the executed instructions, summed modulo 2^64.
    pub cycles: u64,
}

/// Why execution stopped short of a halt.
#[derive(Clone, Copy, PartialEq, Eq, Debug, Structural)]
pub enum ExecutionError {
    /// The byte fetched as an opcode encodes no implemented instruction.
    UnknownOpcode(u8),
    /// The run reached its bound on the number of instructions.
    StepLimit,
}

/// `address + delta`, wrapping round the address space.
pub open spec fn offset(address: u16, delta: int) -> u16 {
    ((address + delta) % 65536) as u16
}

/// Reads the byte at the program counter and advances the counter; at the
/// top of the address space the counter stays and the processor halts.
pub open spec fn fetch(m: MachineState) -> (u8, MachineState) {
    let value = m.memory[m.program_counter as int];
    if m.program_counter == 0xFFFF {
        (value, MachineState { halted: true, ..m })
    } else {
        (value, MachineState { program_counter: (m.program_counter + 1) as u16, ..m })
    }
}

/// Fetches a little-endian word.
pub open spec fn fetch_word(m: MachineState) -> (u16, MachineState) {
    let (low, m1) = fetch(m);
    let (high, m2) = fetch(m1);
    (word_of(high, low) as u16, m2)
}

/// The flags that 8-bit addition and subtraction affect.
pub open spec fn arithmetic_flags() -> Seq<Flag> {
    seq![
        Flag::AddSubtract,
        Flag::Carry,
        Flag::HalfCarry,
        Flag::ParityOverflow,
        Flag::Sign,
        Flag::Zero,
    ]
}

/// The flags that 8-bit increment and decrement affect: all but the carry.
pub open spec fn increment_flags() -> Seq<Flag> {
    seq![Flag::AddSubtract, Flag::ParityOverflow, Flag::HalfCarry, Flag::Zero, Flag::Sign]
}

/// The flags that adding a pair into HL affects.
pub open spec fn pair_add_flags() -> Seq<Flag> {
    seq![Flag::Carry, Flag::HalfCarry, Flag::AddSubtract]
}

/// The flags that the bitwise operations set.
pub open spec fn logic_flags() -> Seq<Flag> {
    seq![
        Flag::ParityOverflow,
        Flag::Carry,
        Flag::HalfCarry,
        Flag::AddSubtract,
        Flag::Zero,
        Flag::Sign,
    ]
}

/// The flag values that a byte sum produces.
pub open spec fn byte_result_flags(r: AdderResult<u8>, subtract: bool) -> Seq<(Flag, bool)> {
    seq![
        (Flag::Zero, r.value == 0),
        (Flag::Sign, r.value > 0x7F),
        (Flag::HalfCarry, r.half_carry),
        (Flag::ParityOverflow, r.overflow),
        (Flag::AddSubtract, subtract),
        (Flag::Carry, r.carry),
    ]
}

/// The flag values that a word sum produces.
pub open spec fn word_result_flags(r: AdderResult<u16>, subtract: bool) -> Seq<(Flag, bool)> {
    seq![
        (Flag::Zero, r.value == 0),
        (Flag::Sign, r.value > 0x7FFF),
        (Flag::HalfCarry, r.half_carry),
        (Flag::ParityOverflow, r.overflow),
        (Flag::AddSubtract, subtract),
        (Flag::Carry, r.carry),
    ]
}

/// The number of set bits of a byte.
pub open spec fn ones(v: u8) -> nat
    decreases v,
{
    if v == 0 {
        0
    } else {
        (v % 2) as nat + ones((v / 2) as u8)
    }
}

pub open spec fn logic(op: LogicOp, a: u8, b: u8) -> u8 {
    match op {
        LogicOp::And => a & b,
        LogicOp::Or => a | b,
        LogicOp::Xor => a ^ b,
    }
}

/// The flag values that a bitwise result produces; the half-carry is set
/// for AND only.
pub open spec fn logic_flag_values(op: LogicOp, r: u8) -> Seq<(Flag, bool)> {
    seq![
        (Flag::ParityOverflow, ones(r) % 2 == 0),
        (Flag::Carry, false),
        (Flag::HalfCarry, op == LogicOp::And),
        (Flag::AddSubtract, false),
        (Flag::Zero, r == 0),
        (Flag::Sign, r > 0x7F),
    ]
}

/// `target` set to the adder's value and the affected flags set from it.
pub open spec fn stored_result(
    m: MachineState,
    target: Register,
    r: AdderResult<u8>,
    subtract: bool,
    affected: Seq<Flag>,
) -> MachineState {
    MachineState {
        registers: m.registers.with_reg(target, r.value),
        status: apply_flags(m.status, affected, byte_result_flags(r, subtract)),
        ..m
    }
}

/// `target := target op operand` through the byte adder, updating the
/// affected flags.
pub open spec fn operate_on_register(
    m: MachineState,
    op: Operation,
    target: Register,
    operand: u8,
    affected: Seq<Flag>,
) -> MachineState {
    let r = octet_sum(m.registers.reg(target), op.spec_operand(operand));
    stored_result(m, target, r, op == Operation::Subtract, affected)
}

/// `target := target op operand` through the word adder, updating the
/// affected flags.
pub open spec fn operate_on_register_pair(
    m: MachineState,
    op: Operation,
    target: RegisterPair,
    operand: u16,
    affected: Seq<Flag>,
) -> MachineState {
    let r = word_sum(m.registers.word(target), op.spec_operand_word(operand));
    MachineState {
        registers: m.registers.with_word(target, r.value),
        status: apply_flags(m.status, affected, word_result_flags(r, op == Operation::Subtract)),
        ..m
    }
}

/// Whether the carry flag is set.
pub open spec fn carry_in(status: u8) -> bool {
    flag_bit(status, Flag::Carry)
}

/// The accumulator combined with `operand` by a bitwise operation.
pub open spec fn bitwise_operation(m: MachineState, op: LogicOp, operand: u8) -> MachineState {
    let r = logic(op, m.registers.a, operand);
    MachineState {
        registers: Registers { a: r, ..m.registers },
        status: apply_flags(m.status, logic_flags(), logic_flag_values(op, r)),
        ..m
    }
}

/// Pushes a word: high byte below the stack pointer, low byte below that,
/// and the stack pointer down by two.
pub open spec fn push_word(m: MachineState, value: u16) -> MachineState {
    let sp = m.registers.word(RegisterPair::SP);
    MachineState {
        memory: m.memory.update(offset(sp, -1) as int, high_byte(value)).update(
            offset(sp, -2) as int,
            low_byte(value),
        ),
        registers: m.registers.with_word(RegisterPair::SP, offset(sp, -2)),
        ..m
    }
}

/// Pops a word: low byte at the stack pointer, high byte above it, and the
/// stack pointer up by two.
pub open spec fn pop_word(m: MachineState) -> (u16, MachineState) {
    let sp = m.registers.word(RegisterPair::SP);
    (
        word_at(m.memory, sp),
        MachineState { registers: m.registers.with_word(RegisterPair::SP, offset(sp, 2)), ..m },
    )
}

pub open spec fn jump(m: MachineState, condition: Condition) -> MachineState {
    let (dest, m1) = fetch_word(m);
    if condition.holds(m1.status) {
        MachineState { program_counter: dest, ..m1 }
    } else {
        m1
    }
}

pub open spec fn call(m: MachineState, condition: Condition) -> (MachineState, u8) {
    let (dest, m1) = fetch_word(m);
    if condition.holds(m1.status) {
        (MachineState { program_counter: dest, ..push_word(m1, m1.program_counter) }, 17)
    } else {
        (m1, 10)
    }
}

pub open spec fn ret(m: MachineState) -> MachineState {
    let (dest, m1) = pop_word(m);
    MachineState { program_counter: dest, ..m1 }
}

pub open spec fn with_registers(m: MachineState, registers: Registers) -> MachineState {
    MachineState { registers, ..m }
}

pub open spec fn with_memory(m: MachineState, memory: Seq<u8>) -> MachineState {
    MachineState { memory, ..m }
}

pub open spec fn with_status(m: MachineState, status: u8) -> MachineState {
    MachineState { status, ..m }
}

/// The registers with A and F exchanged with the shadow set's.
pub open spec fn exchange_af(m: MachineState) -> MachineState {
    let r = m.registers;
    let s = m.alt_registers;
    MachineState {
        registers: Registers { a: s.a, f: s.f, ..r },
        alt_registers: Registers { a: r.a, f: r.f, ..s },
        ..m
    }
}

/// The registers with B, C, D, E, H and L exchanged with the shadow set's.
pub open spec fn exchange_shadow(m: MachineState) -> MachineState {
    let r = m.registers;
    let s = m.alt_registers;
    MachineState {
        registers: Registers { b: s.b, c: s.c, d: s.d, e: s.e, h: s.h, l: s.l, ..r },
        alt_registers: Registers { b: r.b, c: r.c, d: r.d, e: r.e, h: r.h, l: r.l, ..s },
        ..m
    }
}

/// H and L exchanged with the bytes above and at the stack pointer.
pub open spec fn exchange_stack_hl(m: MachineState) -> MachineState {
    let sp = m.registers.word(RegisterPair::SP);
    let r = m.registers;
    MachineState {
        registers: Registers {
            h: m.memory[offset(sp, 1) as int],
            l: m.memory[sp as int],
            ..r
        },
        memory: m.memory.update(sp as int, r.l).update(offset(sp, 1) as int, r.h),
        ..m
    }
}

/// What an instruction does once its opcode byte has been fetched, with its
/// cycle cost.
pub open spec fn perform(m: MachineState, i: Instruction) -> (MachineState, u8) {
    let regs = m.registers;
    match i {
        Instruction::Nop => (m, 4),
        Instruction::Halt => (MachineState { halted: true, ..m }, 4),
        Instruction::Jump(c) => (jump(m, c), 10),
        Instruction::Call(c) => call(m, c),
        Instruction::Return => (ret(m), 10),
        Instruction::ReturnIf(c) => if c.holds(m.status) {
            (ret(m), 11)
        } else {
            (m, 5)
        },
        Instruction::Increment(r) => (
            operate_on_register(m, Operation::Add, r, 1, increment_flags()),
            4,
        ),
        Instruction::Decrement(r) => (
            operate_on_register(m, Operation::Subtract, r, 1, increment_flags()),
            4,
        ),
        Instruction::IncrementPair(p) => (
            operate_on_register_pair(m, Operation::Add, p, 1, seq![]),
            6,
        ),
        Instruction::DecrementPair(p) => (
            operate_on_register_pair(m, Operation::Subtract, p, 1, seq![]),
            6,
        ),
        Instruction::AddPairToHl(p) => (
            operate_on_register_pair(
                m,
                Operation::Add,
                RegisterPair::HL,
                regs.word(p),
                pair_add_flags(),
            ),
            11,
        ),
        Instruction::Add(r) => (
            operate_on_register(m, Operation::Add, Register::A, regs.reg(r), arithmetic_flags()),
            4,
        ),
        Instruction::AddCarry(r) => (
            stored_result(
                m,
                Register::A,
                octet_sum_with_carry(regs.a, regs.reg(r), carry_in(m.status)),
                false,
                arithmetic_flags(),
            ),
            4,
        ),
        Instruction::Subtract(r) => (
            operate_on_register(
                m,
                Operation::Subtract,
                Register::A,
                regs.reg(r),
                arithmetic_flags(),
            ),
            4,
        ),
        Instruction::SubtractCarry(r) => (
            stored_result(
                m,
                Register::A,
                octet_sum(regs.a, negated_with_carry(regs.reg(r), carry_in(m.status))),
                true,
                arithmetic_flags(),
            ),
            4,
        ),
        Instruction::Bitwise(op, r) => (bitwise_operation(m, op, regs.reg(r)), 4),
        Instruction::BitwiseValue(op) => {
            let (v, m1) = fetch(m);
            (bitwise_operation(m1, op, v), 7)
        },
        Instruction::SetCarry => (
            with_status(
                m,
                apply_flags(
                    m.status,
                    seq![Flag::Carry, Flag::HalfCarry, Flag::AddSubtract],
                    seq![(Flag::Carry, true), (Flag::HalfCarry, false), (Flag::AddSubtract, false)],
                ),
            ),
            4,
        ),
        Instruction::ComplementCarry => {
            let previous = flag_bit(m.status, Flag::Carry);
            (
                with_status(
                    m,
                    apply_flags(
                        m.status,
                        seq![Flag::Carry, Flag::HalfCarry, Flag::AddSubtract],
                        seq![
                            (Flag::Carry, !previous),
                            (Flag::HalfCarry, previous),
                            (Flag::AddSubtract, false),
                        ],
                    ),
                ),
                4,
            )
        },
        Instruction::Complement => (
            MachineState {
                registers: Registers { a: !regs.a, ..regs },
                status: apply_flags(
                    m.status,
                    seq![Flag::AddSubtract, Flag::HalfCarry],
                    seq![(Flag::AddSubtract, true), (Flag::HalfCarry, true)],
                ),
                ..m
            },
            4,
        ),
        Instruction::RotateLeft => (
            MachineState {
                registers: Registers { a: ((regs.a * 2) % 256 + regs.a / 128) as u8, ..regs },
                status: apply_flags(
                    m.status,
                    seq![Flag::Carry, Flag::HalfCarry, Flag::AddSubtract],
                    seq![
                        (Flag::Carry, regs.a >= 0x80),
                        (Flag::HalfCarry, false),
                        (Flag::AddSubtract, false),
                    ],
                ),
                ..m
            },
            4,
        ),
        Instruction::ExchangeAf => (exchange_af(m), 4),
        Instruction::ExchangeShadow => (exchange_shadow(m), 4),
        Instruction::ExchangeDeHl => (
            with_registers(m, Registers { d: regs.h, e: regs.l, h: regs.d, l: regs.e, ..regs }),
            4,
        ),
        Instruction::ExchangeStackHl => (exchange_stack_hl(m), 19),
        Instruction::Move(d, s) => (with_registers(m, regs.with_reg(d, regs.reg(s))), 4),
        Instruction::LoadFromPointer(r, p) => (
            with_registers(m, regs.with_reg(r, m.memory[regs.word(p) as int])),
            7,
        ),
        Instruction::StoreToPointer(p, r) => (
            with_memory(m, m.memory.update(regs.word(p) as int, regs.reg(r))),
            7,
        ),
        Instruction::LoadImmediate(r) => {
            let (v, m1) = fetch(m);
            (with_registers(m1, regs.with_reg(r, v)), 7)
        },
        Instruction::LoadPairImmediate(p) => {
            let (v, m1) = fetch_word(m);
            (with_registers(m1, regs.with_word(p, v)), 10)
        },
        Instruction::StoreAbsolute(r) => {
            let (address, m1) = fetch_word(m);
            (with_memory(m1, m.memory.update(address as int, regs.reg(r))), 13)
        },
        Instruction::LoadAbsolute(r) => {
            let (address, m1) = fetch_word(m);
            (with_registers(m1, regs.with_reg(r, m.memory[address as int])), 13)
        },
        Instruction::StorePairAbsolute(p) => {
            let (address, m1) = fetch_word(m);
            (with_memory(m1, with_word_at(m.memory, address, regs.word(p))), 16)
        },
        Instruction::LoadPairAbsolute(p) => {
            let (address, m1) = fetch_word(m);
            (with_registers(m1, regs.with_word(p, word_at(m.memory, address))), 16)
        },
        Instruction::StoreImmediateToPointer(p) => {
            let (v, m1) = fetch(m);
            (with_memory(m1, m.memory.update(regs.word(p) as int, v)), 10)
        },
        Instruction::Push(p) => (push_word(m, regs.word(p)), 11),
        Instruction::Pop(p) => {
            let (v, m1) = pop_word(m);
            (with_registers(m1, m1.registers.with_word(p, v)), 10)
        },
    }
}

/// The state with `cycles` more cycles counted.
pub open spec fn clocked(m: MachineState, cycles: u8) -> MachineState {
    MachineState { cycles: ((m.cycles + cycles) % 0x1_0000_0000_0000_0000) as u64, ..m }
}

/// One fetch-decode-execute step: the new state and the cycle cost, or the
/// undecodable byte.
#[verifier::opaque]
pub open spec fn step(m: MachineState) -> (MachineState, Result<u8, ExecutionError>) {
    let (byte, m1) = fetch(m);
    match opcode_of(byte) {
        Some(op) => {
            let (m2, cycles) = perform(m1, op.spec_instruction());
            (clocked(m2, cycles), Ok(cycles))
        },
        None => (m1, Err(ExecutionError::UnknownOpcode(byte))),
    }
}

/// Steps until the processor halts, a byte fails to decode, or `fuel`
/// steps have run.
pub open spec fn run(m: MachineState, fuel: nat) -> (MachineState, Result<(), ExecutionError>)
    decreases fuel,
{
    if m.halted {
        (m, Ok(()))
    } else if fuel == 0 {
        (m, Err(ExecutionError::StepLimit))
    } else {
        let (m1, r) = step(m);
        match r {
            Ok(_) => run(m1, (fuel - 1) as nat),
            Err(e) => (m1, Err(e)),
        }
    }
}

/// Incrementing a register that holds 0xFF leaves 0x00 in it, sets the zero
/// and half-carry flags, and leaves the carry flag as it was.
pub proof fn lemma_increment_wraps(m: MachineState, target: Register)
    requires
        m.registers.reg(target) == 0xFF,
    ensures
        ({
            let (next, cycles) = perform(m, Instruction::Increment(target));
            &&& next.registers.reg(target) == 0
            &&& flag_bit(next.status, Flag::Zero)
            &&& flag_bit(next.status, Flag::HalfCarry)
            &&& flag_bit(next.status, Flag::Carry) == flag_bit(m.status, Flag::Carry)
        }),
{
    let r = octet_sum(0xFF, 1);
    let values = byte_result_flags(r, false);
    assert(increment_flags().contains(Flag::Zero)) by {
        assert(increment_flags()[3] == Flag::Zero);
    }
    assert(increment_flags().contains(Flag::HalfCarry)) by {
        assert(increment_flags()[2] == Flag::HalfCarry);
    }
    assert(!increment_flags().contains(Flag::Carry));
    reveal_with_fuel(crate::flags::flag_value, 7);
    lemma_apply_flags(m.status, increment_flags(), values, Flag::Zero);
    lemma_apply_flags(m.status, increment_flags(), values, Flag::HalfCarry);
    lemma_apply_flags(m.status, increment_flags(), values, Flag::Carry);
}

/// Incrementing a register pair that holds 0xFFFF leaves 0x0000 in it and
/// changes no flag.
pub proof fn lemma_increment_pair_wraps(m: MachineState, target: RegisterPair)
    requires
        m.registers.word(target) == 0xFFFF,
    ensures
        ({
            let (next, cycles) = perform(m, Instruction::IncrementPair(target));
            next.registers.word(target) == 0 && next.status == m.status
        }),
{
    reveal_with_fuel(apply_flags, 1);
}

/// Pushing a register pair and popping the same pair restores every
/// register, the stack pointer included.
pub proof fn lemma_push_pop(m: MachineState, pair: RegisterPair)
    requires
        m.memory.len() == 65536,
    ensures
        ({
            let (pushed, c1) = perform(m, Instruction::Push(pair));
            let (popped, c2) = perform(pushed, Instruction::Pop(pair));
            popped.registers == m.registers
        }),
{
    let sp = m.registers.word(RegisterPair::SP);
    let value = m.registers.word(pair);
    let pushed = push_word(m, value);
    let below = offset(sp, -2);
    assert(below != offset(sp, -1));
    assert(next_address(below) == offset(sp, -1));
    assert(pushed.memory[below as int] == low_byte(value));
    assert(pushed.memory[offset(sp, -1) as int] == high_byte(value));
    lemma_byte_split(m.registers.pair(pair).0, m.registers.pair(pair).1);
    lemma_byte_split(m.registers.s, m.registers.p);
    lemma_byte_split(high_byte(value), low_byte(value));
    assert(word_at(pushed.memory, below) == value);
    assert(offset(below, 2) == sp);
    let popped_regs = pushed.registers.with_word(RegisterPair::SP, offset(below, 2));
    assert(popped_regs == m.registers);
    assert(popped_regs.with_word(pair, value) == m.registers);
}

/// Splitting a word into bytes and joining them again are inverse.
pub proof fn lemma_byte_split(high: u8, low: u8)
    ensures
        high_byte(word_of(high, low) as u16) == high,
        low_byte(word_of(high, low) as u16) == low,
        word_of(high_byte(word_of(high, low) as u16), low_byte(word_of(high, low) as u16))
            == word_of(high, low),
{
}

/// A conditional jump, call or return branches exactly when its condition
/// holds of the status, and costs the cycles of the path it took.
pub proof fn lemma_conditional_branches(m: MachineState, condition: Condition)
    ensures
        ({
            let (dest, after) = fetch_word(m);
            let (jumped, jump_cycles) = perform(m, Instruction::Jump(condition));
            &&& jumped.program_counter == if condition.holds(m.status) {
                dest
            } else {
                after.program_counter
            }
            &&& jump_cycles == 10
        }),
        ({
            let (dest, after) = fetch_word(m);
            let (called, call_cycles) = perform(m, Instruction::Call(condition));
            &&& called.program_counter == if condition.holds(m.status) {
                dest
            } else {
                after.program_counter
            }
            &&& call_cycles == if condition.holds(m.status) {
                17u8
            } else {
                10u8
            }
        }),
        ({
            let (returned, return_cycles) = perform(m, Instruction::ReturnIf(condition));
            &&& returned.program_counter == if condition.holds(m.status) {
                pop_word(m).0
            } else {
                m.program_counter
            }
            &&& return_cycles == if condition.holds(m.status) {
                11u8
            } else {
                5u8
            }
        }),
{
}

/// The state after `n` steps from `m`, whatever each step returned.
pub open spec fn steps(m: MachineState, n: nat) -> MachineState
    decreases n,
{
    if n == 0 {
        m
    } else {
        step(steps(m, (n - 1) as nat)).0
    }
}

/// Joining the two bytes of a word gives the word back.
pub proof fn lemma_word_join(value: u16)
    ensures
        word_of(high_byte(value), low_byte(value)) == value,
{
}

/// With every byte of memory an increment of BC, the counter at zero and BC
/// zero, BC holds `k` after `k` steps: it takes each 16-bit value once, in
/// ascending order, and is zero again after 65536 steps.
pub proof fn lemma_increment_pair_sweep(m: MachineState, k: nat)
    requires
        m.memory.len() == 65536,
        forall|i: int| 0 <= i < 65536 ==> m.memory[i] == Opcode::IncBC.byte(),
        m.program_counter == 0,
        m.registers.word(RegisterPair::BC) == 0,
        k <= 65536,
    ensures
        steps(m, k).registers.word(RegisterPair::BC) == k % 65536,
        steps(m, k).memory == m.memory,
        k < 65536 ==> steps(m, k).program_counter == k,
    decreases k,
{
    if k > 0 {
        let j = (k - 1) as nat;
        lemma_increment_pair_sweep(m, j);
        let prev = steps(m, j);
        assert(prev.memory[prev.program_counter as int] == Opcode::IncBC.byte());
        lemma_increment_pair_step(prev);
        assert(steps(m, k) == step(prev).0);
        let bc = prev.registers.word(RegisterPair::BC);
        assert(bc == j % 65536);
        assert((bc + 1) % 65536 == k % 65536) by {
            if j < 65536 {
                assert(bc == j);
            }
        }
    }
}

/// One step at an increment-BC byte adds one to BC, modulo 65536, and moves
/// the counter on.
proof fn lemma_increment_pair_step(m: MachineState)
    requires
        m.memory.len() == 65536,
        m.memory[m.program_counter as int] == Opcode::IncBC.byte(),
    ensures
        step(m).0.registers.word(RegisterPair::BC) == (m.registers.word(RegisterPair::BC) + 1)
            % 65536,
        step(m).0.memory == m.memory,
        m.program_counter < 0xFFFF ==> step(m).0.program_counter == m.program_counter + 1,
{
    reveal(step);
    assert(opcode_of(0x03) == Some(Opcode::IncBC));
    let (byte, fetched) = fetch(m);
    assert(byte == 0x03);
    assert(Opcode::IncBC.spec_instruction() == Instruction::IncrementPair(RegisterPair::BC));
    let sum = word_sum(fetched.registers.word(RegisterPair::BC), 1);
    let after = operate_on_register_pair(fetched, Operation::Add, RegisterPair::BC, 1, seq![]);
    assert(perform(fetched, Instruction::IncrementPair(RegisterPair::BC)) == (after, 6u8));
    assert(step(m) == (clocked(after, 6), Ok::<u8, ExecutionError>(6)));
    lemma_word_join(sum.value);
    assert(after.registers.word(RegisterPair::BC) == sum.value);
}

} // verus!
