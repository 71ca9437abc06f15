use vstd::prelude::*;
use crate::alu::{get_octets, get_word, high_byte, low_byte, word_of};

verus! {

/// One set of byte registers; `s` and `p` are the high and low bytes of the
/// stack pointer.
#[derive(Clone, Copy, PartialEq, Eq, Debug, Structural)]
pub struct Registers {
    pub a: u8,
    pub b: u8,
    pub c: u8,
    pub d: u8,
    pub e: u8,
    pub f: u8,
    pub h: u8,
    pub l: u8,
    pub s: u8,
    pub p: u8,
}

/// Names a general byte register.
#[derive(Clone, Copy, PartialEq, Eq, Debug, Structural)]
pub enum Register {
    A,
    B,
    C,
    D,
    E,
    H,
    L,
}

/// Names two registers that together hold a word, high byte first.
#[derive(Clone, Copy, PartialEq, Eq, Debug, Structural)]
pub enum RegisterPair {
    AF,
    BC,
    DE,
    HL,
    SP,
}

impl Registers {
    pub open spec fn spec_new() -> Registers {
        Registers { a: 0, b: 0, c: 0, d: 0, e: 0, f: 0, h: 0, l: 0, s: 0xFF, p: 0xFF }
    }

    /// All registers zero but the stack pointer, which is 0xFFFF.
    pub fn new() -> (r: Registers)
        ensures
            r == Registers::spec_new(),
    {
        Registers { a: 0, b: 0, c: 0, d: 0, e: 0, f: 0, h: 0, l: 0, s: 0xFF, p: 0xFF }
    }

    /// The word whose high byte is `high` and low byte is `low`.
    pub fn u8s_to_u16(high: u8, low: u8) -> (r: u16)
        ensures
            r == word_of(high, low),
    {
        get_word(high, low)
    }

    /// The high and low bytes of `value`.
    pub fn u16_to_u8s(value: u16) -> (r: (u8, u8))
        ensures
            r.0 == high_byte(value),
            r.1 == low_byte(value),
            word_of(r.0, r.1) == value,
    {
        get_octets(value)
    }

    pub open spec fn reg(self, r: Register) -> u8 {
        match r {
            Register::A => self.a,
            Register::B => self.b,
            Register::C => self.c,
            Register::D => self.d,
            Register::E => self.e,
            Register::H => self.h,
            Register::L => self.l,
        }
    }

    pub open spec fn with_reg(self, r: Register, v: u8) -> Registers {
        match r {
            Register::A => Registers { a: v, ..self },
            Register::B => Registers { b: v, ..self },
            Register::C => Registers { c: v, ..self },
            Register::D => Registers { d: v, ..self },
            Register::E => Registers { e: v, ..self },
            Register::H => Registers { h: v, ..self },
            Register::L => Registers { l: v, ..self },
        }
    }

    /// The (high, low) bytes of a pair.
    pub open spec fn pair(self, p: RegisterPair) -> (u8, u8) {
        match p {
            RegisterPair::AF => (self.a, self.f),
            RegisterPair::BC => (self.b, self.c),
            RegisterPair::DE => (self.d, self.e),
            RegisterPair::HL => (self.h, self.l),
            RegisterPair::SP => (self.s, self.p),
        }
    }

    pub open spec fn with_pair(self, p: RegisterPair, v: (u8, u8)) -> Registers {
        match p {
            RegisterPair::AF => Registers { a: v.0, f: v.1, ..self },
            RegisterPair::BC => Registers { b: v.0, c: v.1, ..self },
            RegisterPair::DE => Registers { d: v.0, e: v.1, ..self },
            RegisterPair::HL => Registers { h: v.0, l: v.1, ..self },
            RegisterPair::SP => Registers { s: v.0, p: v.1, ..self },
        }
    }

    /// The word that a pair holds.
    pub open spec fn word(self, p: RegisterPair) -> u16 {
        word_of(self.pair(p).0, self.pair(p).1) as u16
    }

    /// The registers with the pair `p` holding the word `v`.
    pub open spec fn with_word(self, p: RegisterPair, v: u16) -> Registers {
        self.with_pair(p, (high_byte(v), low_byte(v)))
    }

    /// Reads one register.
    pub fn get(&self, r: Register) -> (v: u8)
        ensures
            v == self.reg(r),
    {
        match r {
            Register::A => self.a,
            Register::B => self.b,
            Register::C => self.c,
            Register::D => self.d,
            Register::E => self.e,
            Register::H => self.h,
            Register::L => self.l,
        }
    }

    /// Writes one register.
    pub fn set(&mut self, r: Register, v: u8)
        ensures
            *final(self) == old(self).with_reg(r, v),
    {
        match r {
            Register::A => self.a = v,
            Register::B => self.b = v,
            Register::C => self.c = v,
            Register::D => self.d = v,
            Register::E => self.e = v,
            Register::H => self.h = v,
            Register::L => self.l = v,
        }
    }

    /// The (high, low) bytes of a pair.
    pub fn get_bytes(&self, target: RegisterPair) -> (r: (u8, u8))
        ensures
            r == self.pair(target),
    {
        match target {
            RegisterPair::AF => (self.a, self.f),
            RegisterPair::BC => (self.b, self.c),
            RegisterPair::DE => (self.d, self.e),
            RegisterPair::HL => (self.h, self.l),
            RegisterPair::SP => (self.s, self.p),
        }
    }

    /// Writes the (high, low) bytes of a pair.
    pub fn assign_bytes(&mut self, target: RegisterPair, value: (u8, u8))
        ensures
            *final(self) == old(self).with_pair(target, value),
    {
        match target {
            RegisterPair::AF => {
                self.a = value.0;
                self.f = value.1;
            },
            RegisterPair::BC => {
                self.b = value.0;
                self.c = value.1;
            },
            RegisterPair::DE => {
                self.d = value.0;
                self.e = value.1;
            },
            RegisterPair::HL => {
                self.h = value.0;
                self.l = value.1;
            },
            RegisterPair::SP => {
                self.s = value.0;
                self.p = value.1;
            },
        }
    }

    /// Writes a word into a pair, high byte into the first register.
    pub fn assign_word(&mut self, target: RegisterPair, value: u16)
        ensures
            *final(self) == old(self).with_word(target, value),
            final(self).word(target) == value,
    {
        self.assign_bytes(target, get_octets(value));
    }

    /// The word that a pair holds.
    pub fn get_word(&self, target: RegisterPair) -> (r: u16)
        ensures
            r == self.word(target),
    {
        let (high, low) = self.get_bytes(target);
        get_word(high, low)
    }
}

} // verus!
