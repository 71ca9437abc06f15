use z80emu::alu;
use z80emu::flags::Flag;
use z80emu::machine::Machine;
use z80emu::memory::Memory;
use z80emu::nibble::Nibble;
use z80emu::opcodes::Opcode;
use z80emu::program::Program;
use z80emu::registers::{Register, RegisterPair, Registers};
use z80emu::semantics::ExecutionError;

fn machine_with(bytes: Vec<u8>) -> Machine {
    let mut vm = Machine::new();
    let mut p = Program::new();
    p.add_vector(bytes);
    assert!(vm.load(&p));
    vm
}

fn op(o: Opcode) -> u8 {
    o.to_u8()
}

fn flag(vm: &Machine, f: Flag) -> bool {
    f.get(&vm.cpu.state.status)
}

#[test]
fn add_octets_signed_overflow_and_carries() {
    let r = alu::add_octets(0x80, 0x80);
    assert_eq!(r.value, 0x00);
    assert!(r.carry);
    assert!(!r.half_carry);
    assert!(r.overflow);
    let r = alu::add_octets(0x0F, 0x01);
    assert_eq!(r.value, 0x10);
    assert!(r.half_carry);
    assert!(!r.carry);
    let r = alu::add_octets(0x7F, 0x81);
    assert_eq!(r.value, 0x00);
    assert!(r.carry);
    assert!(!r.overflow);
}

#[test]
fn add_words_carries_at_byte_boundary() {
    let r = alu::add_words(0x0FFF, 0x0001);
    assert_eq!(r.value, 0x1000);
    assert!(r.half_carry);
    assert!(!r.carry);
    let r = alu::add_words(0x00FF, 0x0001);
    assert_eq!(r.value, 0x0100);
    assert!(!r.half_carry);
    let r = alu::add_words(0x8000, 0x8000);
    assert_eq!(r.value, 0);
    assert!(r.carry);
    assert!(r.overflow);
    let r = alu::add_words(0xFF00, 0x0100);
    assert_eq!(r.value, 0);
    assert!(r.carry);
    assert!(r.half_carry);
}

#[test]
fn byte_and_word_helpers() {
    assert_eq!(alu::get_octets(0x1234), (0x12, 0x34));
    assert_eq!(alu::get_word(0x12, 0x34), 0x1234);
    assert_eq!(alu::get_word_from_tuple((0xAB, 0xCD)), 0xABCD);
    assert_eq!(alu::get_bit(true), 1);
    assert_eq!(alu::get_bit(false), 0);
    assert_eq!(alu::negate(1), 0xFF);
    assert_eq!(alu::negate(0), 0);
    assert_eq!(alu::negate_word(2), 0xFFFE);
    assert_eq!(Registers::u8s_to_u16(0xBE, 0xEF), 0xBEEF);
    assert_eq!(Registers::u16_to_u8s(0xBEEF), (0xBE, 0xEF));
}

#[test]
fn nibble_arithmetic() {
    let high = Nibble::from_u8_high(0xA7);
    let low = Nibble::from_u8(0xA7);
    assert_eq!(Nibble::u8_from_nibbles(high, low), 0xA7);
    let (sum, overflow) = Nibble::from_u8(0x09).overflowing_add(Nibble::from_u8(0x08));
    assert_eq!(Nibble::u8_from_nibbles(Nibble::from_u8(0), sum), 0x01);
    assert!(overflow);
    let (sum, overflow) = Nibble::from_u8(0x03).overflowing_add(Nibble::from_u8(0x04));
    assert_eq!(Nibble::u8_from_nibbles(Nibble::from_u8(0), sum), 0x07);
    assert!(!overflow);
}

#[test]
fn flag_set_values_touches_only_affected() {
    let mut status: u8 = 0b0000_0001;
    Flag::set_values(
        &mut status,
        &[Flag::Zero, Flag::Sign],
        &[(Flag::Zero, true), (Flag::Carry, false), (Flag::Sign, false), (Flag::Zero, false)],
    );
    assert_eq!(status, 0b0000_0001);
    Flag::set_values(&mut status, &[Flag::Zero, Flag::HalfCarry], &[(Flag::Zero, true)]);
    assert_eq!(status, 0b0100_0001);
    assert_eq!(Flag::Zero.get_bit(&status), 64);
    assert_eq!(Flag::Sign.get_bit(&status), 0);
    assert_eq!(Flag::all().len(), 8);
    let mut s: u8 = 0xFF;
    Flag::HalfCarry.set(&mut s, false);
    assert_eq!(s, 0xEF);
}

#[test]
fn opcode_bytes_round_trip() {
    let mut known = 0;
    for b in 0..=255u8 {
        if let Some(o) = Opcode::from_u8(b) {
            assert_eq!(o.to_u8(), b);
            known += 1;
        }
    }
    assert_eq!(known, 206);
    assert_eq!(Opcode::Halt.to_u8(), 0x76);
    assert_eq!(Opcode::Nop.to_u8(), 0x00);
    assert_eq!(Opcode::from_u8(0xCB), None);
}

#[test]
fn program_builder_layout() {
    let mut p = Program::new();
    p.add(Opcode::Nop);
    p.add_param(Opcode::LdAX, 7);
    p.add_param_word(Opcode::JpXX, 0x1234);
    p.add_params(Opcode::LdBCXX, 0x34, 0x12);
    p.add_vector(vec![9, 8]);
    assert_eq!(p.raw(), &vec![0x00, 0x3E, 7, 0xC3, 0x34, 0x12, 0x01, 0x34, 0x12, 9, 8]);
}

#[test]
fn memory_words_are_little_endian_and_wrap() {
    let mut m = Memory::new();
    m.write_u16(0x1000, 0xABCD);
    assert_eq!(m.read_u8(0x1000), 0xCD);
    assert_eq!(m.read_u8(0x1001), 0xAB);
    assert_eq!(m.read_u16(0x1000), 0xABCD);
    m.write_u16(0xFFFF, 0x1234);
    assert_eq!(m.read_u8(0xFFFF), 0x34);
    assert_eq!(m.read_u8(0x0000), 0x12);
    assert_eq!(m.read_u16(0xFFFF), 0x1234);
}

#[test]
fn increment_from_ff_keeps_carry() {
    for carry in [false, true] {
        let mut vm = machine_with(vec![op(Opcode::IncD)]);
        vm.cpu.state.registers.d = 0xFF;
        Flag::Carry.set(&mut vm.cpu.state.status, carry);
        assert_eq!(vm.execute(), Ok(4));
        assert_eq!(vm.cpu.state.registers.d, 0x00);
        assert!(flag(&vm, Flag::Zero));
        assert!(flag(&vm, Flag::HalfCarry));
        assert_eq!(flag(&vm, Flag::Carry), carry);
    }
}

#[test]
fn increment_pair_from_ffff_keeps_flags() {
    let mut vm = machine_with(vec![op(Opcode::IncDE)]);
    vm.cpu.state.registers.d = 0xFF;
    vm.cpu.state.registers.e = 0xFF;
    vm.cpu.state.status = 0xA5;
    assert_eq!(vm.execute(), Ok(6));
    assert_eq!(vm.cpu.get_register_pair(RegisterPair::DE), 0x0000);
    assert_eq!(vm.cpu.state.status, 0xA5);
}

#[test]
fn decrement_register_from_zero() {
    let mut vm = machine_with(vec![op(Opcode::DecA)]);
    assert_eq!(vm.execute(), Ok(4));
    assert_eq!(vm.cpu.state.registers.a, 0xFF);
    assert!(flag(&vm, Flag::AddSubtract));
    assert!(flag(&vm, Flag::Sign));
    assert!(!flag(&vm, Flag::Zero));
}

#[test]
fn subtract_through_negation() {
    let mut vm = machine_with(vec![op(Opcode::SubB), op(Opcode::Halt)]);
    vm.cpu.state.registers.a = 0x05;
    vm.cpu.state.registers.b = 0x03;
    assert_eq!(vm.start(), Ok(()));
    assert_eq!(vm.cpu.state.registers.a, 0x02);
    assert!(flag(&vm, Flag::AddSubtract));
    assert!(flag(&vm, Flag::Carry));
    assert!(flag(&vm, Flag::HalfCarry));
    assert!(!flag(&vm, Flag::Zero));
}

#[test]
fn add_and_subtract_with_carry() {
    let mut vm = machine_with(vec![op(Opcode::AdcC), op(Opcode::SbcC), op(Opcode::Halt)]);
    vm.cpu.state.registers.a = 0x10;
    vm.cpu.state.registers.c = 0x05;
    Flag::Carry.set(&mut vm.cpu.state.status, true);
    assert_eq!(vm.execute(), Ok(4));
    assert_eq!(vm.cpu.state.registers.a, 0x16);
    assert!(!flag(&vm, Flag::Carry));
    Flag::Carry.set(&mut vm.cpu.state.status, true);
    assert_eq!(vm.execute(), Ok(4));
    assert_eq!(vm.cpu.state.registers.a, 0x10);
}

#[test]
fn add_pair_to_hl() {
    let mut vm = machine_with(vec![op(Opcode::AddHLBC)]);
    vm.cpu.state.registers.h = 0x0F;
    vm.cpu.state.registers.l = 0xFF;
    vm.cpu.state.registers.b = 0x00;
    vm.cpu.state.registers.c = 0x01;
    Flag::Zero.set(&mut vm.cpu.state.status, true);
    assert_eq!(vm.execute(), Ok(11));
    assert_eq!(vm.cpu.get_register_pair(RegisterPair::HL), 0x1000);
    assert!(flag(&vm, Flag::HalfCarry));
    assert!(!flag(&vm, Flag::Carry));
    assert!(flag(&vm, Flag::Zero));
}

#[test]
fn bitwise_operations() {
    let mut vm = machine_with(vec![
        op(Opcode::AndB),
        op(Opcode::OrX),
        0x01,
        op(Opcode::XorA),
        op(Opcode::Halt),
    ]);
    vm.cpu.state.registers.a = 0xCC;
    vm.cpu.state.registers.b = 0xAA;
    Flag::Carry.set(&mut vm.cpu.state.status, true);
    assert_eq!(vm.execute(), Ok(4));
    assert_eq!(vm.cpu.state.registers.a, 0x88);
    assert!(flag(&vm, Flag::ParityOverflow));
    assert!(flag(&vm, Flag::HalfCarry));
    assert!(!flag(&vm, Flag::Carry));
    assert!(flag(&vm, Flag::Sign));
    assert_eq!(vm.execute(), Ok(7));
    assert_eq!(vm.cpu.state.registers.a, 0x89);
    assert!(!flag(&vm, Flag::ParityOverflow));
    assert!(!flag(&vm, Flag::HalfCarry));
    assert_eq!(vm.execute(), Ok(4));
    assert_eq!(vm.cpu.state.registers.a, 0x00);
    assert!(flag(&vm, Flag::Zero));
    assert!(flag(&vm, Flag::ParityOverflow));
}

#[test]
fn accumulator_flag_instructions() {
    let mut vm = machine_with(vec![
        op(Opcode::CPL),
        op(Opcode::RLCA),
        op(Opcode::SCF),
        op(Opcode::CCF),
    ]);
    vm.cpu.state.registers.a = 0x7E;
    assert_eq!(vm.execute(), Ok(4));
    assert_eq!(vm.cpu.state.registers.a, 0x81);
    assert!(flag(&vm, Flag::AddSubtract));
    assert!(flag(&vm, Flag::HalfCarry));
    assert_eq!(vm.execute(), Ok(4));
    assert_eq!(vm.cpu.state.registers.a, 0x03);
    assert!(flag(&vm, Flag::Carry));
    assert!(!flag(&vm, Flag::HalfCarry));
    assert!(!flag(&vm, Flag::AddSubtract));
    Flag::Carry.set(&mut vm.cpu.state.status, false);
    assert_eq!(vm.execute(), Ok(4));
    assert!(flag(&vm, Flag::Carry));
    assert_eq!(vm.execute(), Ok(4));
    assert!(!flag(&vm, Flag::Carry));
    assert!(flag(&vm, Flag::HalfCarry));
}

#[test]
fn exchanges() {
    let mut vm = machine_with(vec![
        op(Opcode::ExAFAF),
        op(Opcode::Exx),
        op(Opcode::ExDEHL),
        op(Opcode::ExVSPHL),
    ]);
    vm.cpu.state.registers.a = 1;
    vm.cpu.state.registers.f = 2;
    vm.cpu.state.alt_registers.a = 3;
    vm.cpu.state.alt_registers.b = 4;
    vm.cpu.state.registers.b = 5;
    assert_eq!(vm.execute(), Ok(4));
    assert_eq!((vm.cpu.state.registers.a, vm.cpu.state.registers.f), (3, 0));
    assert_eq!((vm.cpu.state.alt_registers.a, vm.cpu.state.alt_registers.f), (1, 2));
    assert_eq!(vm.execute(), Ok(4));
    assert_eq!(vm.cpu.state.registers.b, 4);
    assert_eq!(vm.cpu.state.alt_registers.b, 5);
    vm.cpu.state.registers.d = 0x11;
    vm.cpu.state.registers.e = 0x22;
    vm.cpu.state.registers.h = 0x33;
    vm.cpu.state.registers.l = 0x44;
    assert_eq!(vm.execute(), Ok(4));
    assert_eq!(vm.cpu.get_register_pair(RegisterPair::DE), 0x3344);
    assert_eq!(vm.cpu.get_register_pair(RegisterPair::HL), 0x1122);
    vm.cpu.state.registers.s = 0x20;
    vm.cpu.state.registers.p = 0x00;
    vm.ram.write_u8(0x2000, 0xAA);
    vm.ram.write_u8(0x2001, 0xBB);
    assert_eq!(vm.execute(), Ok(19));
    assert_eq!(vm.cpu.get_register_pair(RegisterPair::HL), 0xBBAA);
    assert_eq!(vm.ram.read_u8(0x2000), 0x22);
    assert_eq!(vm.ram.read_u8(0x2001), 0x11);
}

#[test]
fn memory_loads_and_stores() {
    let mut p = Program::new();
    p.add_param_word(Opcode::LdHLXX, 0x4000);
    p.add(Opcode::LdHLA);
    p.add(Opcode::LdBHL);
    p.add_param(Opcode::LdVHLX, 0x5A);
    p.add_param_word(Opcode::LdVXXHL, 0x3000);
    p.add_param_word(Opcode::LdHLVXX, 0x3000);
    p.add_param_word(Opcode::LdVXXA, 0x3100);
    p.add_param_word(Opcode::LdAVXX, 0x4000);
    p.add(Opcode::Halt);
    let mut vm = Machine::new();
    assert!(vm.load(&p));
    vm.cpu.state.registers.a = 0x77;
    assert_eq!(vm.execute(), Ok(10));
    assert_eq!(vm.cpu.get_register_pair(RegisterPair::HL), 0x4000);
    assert_eq!(vm.execute(), Ok(7));
    assert_eq!(vm.ram.read_u8(0x4000), 0x77);
    assert_eq!(vm.execute(), Ok(7));
    assert_eq!(vm.cpu.state.registers.b, 0x77);
    assert_eq!(vm.execute(), Ok(10));
    assert_eq!(vm.ram.read_u8(0x4000), 0x5A);
    assert_eq!(vm.execute(), Ok(16));
    assert_eq!(vm.ram.read_u8(0x3000), 0x00);
    assert_eq!(vm.ram.read_u8(0x3001), 0x40);
    vm.ram.write_u16(0x3000, 0x1234);
    assert_eq!(vm.execute(), Ok(16));
    assert_eq!(vm.cpu.get_register_pair(RegisterPair::HL), 0x1234);
    assert_eq!(vm.execute(), Ok(13));
    assert_eq!(vm.ram.read_u8(0x3100), 0x77);
    assert_eq!(vm.execute(), Ok(13));
    assert_eq!(vm.cpu.state.registers.a, 0x5A);
    assert_eq!(vm.start_at(vm.cpu.state.program_counter), Ok(()));
}

#[test]
fn pointer_loads_through_bc_and_de() {
    let mut vm = machine_with(vec![op(Opcode::LdVBCA), op(Opcode::LdAVDE), op(Opcode::LdEA)]);
    vm.cpu.state.registers.a = 0x42;
    vm.cpu.state.registers.b = 0x20;
    vm.cpu.state.registers.c = 0x10;
    vm.cpu.state.registers.d = 0x20;
    vm.cpu.state.registers.e = 0x11;
    vm.ram.write_u8(0x2011, 0x99);
    assert_eq!(vm.execute(), Ok(7));
    assert_eq!(vm.ram.read_u8(0x2010), 0x42);
    assert_eq!(vm.execute(), Ok(7));
    assert_eq!(vm.cpu.state.registers.a, 0x99);
    assert_eq!(vm.execute(), Ok(4));
    assert_eq!(vm.cpu.get_register(Register::E), 0x99);
}

#[test]
fn push_then_pop_restores_pair_and_stack_pointer() {
    let mut vm = machine_with(vec![
        op(Opcode::PushBC),
        op(Opcode::PopDE),
        op(Opcode::PushAF),
        op(Opcode::PopAF),
    ]);
    vm.cpu.state.registers.b = 0x12;
    vm.cpu.state.registers.c = 0x34;
    assert_eq!(vm.execute(), Ok(11));
    assert_eq!(vm.cpu.get_register_pair(RegisterPair::SP), 0xFFFD);
    assert_eq!(vm.ram.read_u8(0xFFFE), 0x12);
    assert_eq!(vm.ram.read_u8(0xFFFD), 0x34);
    assert_eq!(vm.execute(), Ok(10));
    assert_eq!(vm.cpu.get_register_pair(RegisterPair::DE), 0x1234);
    assert_eq!(vm.cpu.get_register_pair(RegisterPair::SP), 0xFFFF);
    vm.cpu.state.registers.a = 0xAB;
    vm.cpu.state.registers.f = 0xCD;
    assert_eq!(vm.execute(), Ok(11));
    vm.cpu.state.registers.a = 0;
    vm.cpu.state.registers.f = 0;
    assert_eq!(vm.execute(), Ok(10));
    assert_eq!(vm.cpu.get_register_pair(RegisterPair::AF), 0xABCD);
    assert_eq!(vm.cpu.get_register_pair(RegisterPair::SP), 0xFFFF);
}

#[test]
fn call_and_return() {
    let mut p = Program::new();
    p.add_param_word(Opcode::CallXX, 0x0010);
    p.add(Opcode::Halt);
    let mut vm = Machine::new();
    assert!(vm.load(&p));
    let mut sub = Program::new();
    sub.add(Opcode::Ret);
    assert!(vm.load_at(&sub, 0x0010));
    assert_eq!(vm.start(), Ok(()));
    assert_eq!(vm.cpu.state.program_counter, 0x0004);
    assert_eq!(vm.cpu.get_register_pair(RegisterPair::SP), 0xFFFF);
}

#[test]
fn conditional_cycle_costs() {
    let mut p = Program::new();
    p.add_param_word(Opcode::JpZXX, 0x0003);
    p.add_param_word(Opcode::CallZXX, 0x0010);
    p.add(Opcode::RetZ);
    let mut vm = Machine::new();
    assert!(vm.load(&p));
    assert_eq!(vm.execute(), Ok(10));
    assert_eq!(vm.cpu.state.program_counter, 0x0003);
    assert_eq!(vm.execute(), Ok(10));
    assert_eq!(vm.cpu.state.program_counter, 0x0006);
    assert_eq!(vm.execute(), Ok(5));
    assert_eq!(vm.cpu.state.program_counter, 0x0007);

    Flag::Zero.set(&mut vm.cpu.state.status, true);
    vm.cpu.goto(0x0003);
    assert_eq!(vm.execute(), Ok(17));
    assert_eq!(vm.cpu.state.program_counter, 0x0010);
    vm.cpu.goto(0x0006);
    assert_eq!(vm.execute(), Ok(11));
    assert_eq!(vm.cpu.state.program_counter, 0x0006);
    assert_eq!(vm.cpu.get_register_pair(RegisterPair::SP), 0xFFFF);
}

#[test]
fn load_at_refuses_what_does_not_fit() {
    let mut vm = Machine::new();
    let mut p = Program::new();
    p.add_vector(vec![1, 2]);
    assert!(!vm.load_at(&p, 0xFFFF));
    assert_eq!(vm.ram.read_u8(0xFFFF), 0);
    assert_eq!(vm.ram.read_u8(0x0000), 0);
    assert!(vm.load_at(&p, 0xFFFE));
    assert_eq!(vm.ram.read_u8(0xFFFE), 1);
    assert_eq!(vm.ram.read_u8(0xFFFF), 2);
    let mut empty = Program::new();
    empty.add_vector(vec![]);
    assert!(vm.load_at(&empty, 0xFFFF));
}

#[test]
fn unknown_opcode_is_reported() {
    let mut vm = machine_with(vec![op(Opcode::Nop), 0xCB, op(Opcode::Halt)]);
    assert_eq!(vm.start(), Err(ExecutionError::UnknownOpcode(0xCB)));
    assert_eq!(vm.cpu.state.program_counter, 2);
    assert!(!vm.cpu.is_halted());
}

#[test]
fn counter_overflow_halts() {
    let mut vm = Machine::new();
    assert_eq!(vm.start_at(0xFFFF), Ok(()));
    assert!(vm.cpu.is_halted());
    assert_eq!(vm.cpu.state.program_counter, 0xFFFF);
}

#[test]
fn processor_starts_halted_and_restarts() {
    let mut vm = machine_with(vec![op(Opcode::Halt)]);
    assert!(vm.cpu.is_halted());
    assert_eq!(vm.cpu.get_register_pair(RegisterPair::SP), 0xFFFF);
    assert_eq!(vm.start(), Ok(()));
    assert_eq!(vm.cpu.state.program_counter, 1);
    vm.cpu.unhalt();
    assert!(!vm.cpu.is_halted());
    vm.cpu.halt();
    assert!(vm.cpu.is_halted());
}

#[test]
fn add_with_carry_carries_out_of_full_sum() {
    let mut vm = machine_with(vec![op(Opcode::AdcB)]);
    vm.cpu.state.registers.a = 0x00;
    vm.cpu.state.registers.b = 0xFF;
    Flag::Carry.set(&mut vm.cpu.state.status, true);
    assert_eq!(vm.execute(), Ok(4));
    assert_eq!(vm.cpu.state.registers.a, 0x00);
    assert!(flag(&vm, Flag::Carry));
    assert!(flag(&vm, Flag::HalfCarry));
    assert!(flag(&vm, Flag::Zero));
    assert!(!flag(&vm, Flag::AddSubtract));
    assert!(!flag(&vm, Flag::ParityOverflow));
}

#[test]
fn add_with_carry_signed_overflow() {
    let mut vm = machine_with(vec![op(Opcode::AdcC)]);
    vm.cpu.state.registers.a = 0x7F;
    vm.cpu.state.registers.c = 0x00;
    Flag::Carry.set(&mut vm.cpu.state.status, true);
    assert_eq!(vm.execute(), Ok(4));
    assert_eq!(vm.cpu.state.registers.a, 0x80);
    assert!(flag(&vm, Flag::ParityOverflow));
    assert!(flag(&vm, Flag::Sign));
    assert!(!flag(&vm, Flag::Carry));
    assert!(flag(&vm, Flag::HalfCarry));
}

#[test]
fn add_octets_with_carry_values() {
    let r = alu::add_octets_with_carry(0x0E, 0x01, true);
    assert_eq!(r.value, 0x10);
    assert!(r.half_carry);
    assert!(!r.carry);
    let r = alu::add_octets_with_carry(0xFF, 0xFF, true);
    assert_eq!(r.value, 0xFF);
    assert!(r.carry);
    assert!(r.half_carry);
    assert!(!r.overflow);
    assert_eq!(alu::negate_with_carry(0xFF, true), 0x00);
    assert_eq!(alu::negate_with_carry(0x03, true), 0xFC);
    assert_eq!(alu::negate_with_carry(0x03, false), 0xFD);
}

#[test]
fn subtract_with_carry_subtracts_full_subtrahend() {
    let mut vm = machine_with(vec![op(Opcode::SbcB), op(Opcode::SbcB)]);
    vm.cpu.state.registers.a = 0x05;
    vm.cpu.state.registers.b = 0xFF;
    Flag::Carry.set(&mut vm.cpu.state.status, true);
    assert_eq!(vm.execute(), Ok(4));
    assert_eq!(vm.cpu.state.registers.a, 0x05);
    assert!(!flag(&vm, Flag::Carry));
    assert!(!flag(&vm, Flag::HalfCarry));
    assert!(flag(&vm, Flag::AddSubtract));
    vm.cpu.state.registers.b = 0x04;
    Flag::Carry.set(&mut vm.cpu.state.status, true);
    assert_eq!(vm.execute(), Ok(4));
    assert_eq!(vm.cpu.state.registers.a, 0x00);
    assert!(flag(&vm, Flag::Zero));
    assert!(flag(&vm, Flag::Carry));
}

#[test]
fn cycles_are_counted() {
    let mut vm = machine_with(vec![op(Opcode::AddB), op(Opcode::LdAX), 1, op(Opcode::Halt)]);
    assert_eq!(vm.cycles, 0);
    assert_eq!(vm.start(), Ok(()));
    assert_eq!(vm.cycles, 4 + 7 + 4);
    vm.clock(10);
    assert_eq!(vm.cycles, 25);
    vm.cycles = u64::MAX;
    vm.clock(2);
    assert_eq!(vm.cycles, 1);
}
