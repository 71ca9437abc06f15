use vstd::prelude::*;
use crate::instruction::{Condition, Instruction, LogicOp};
use crate::registers::{Register, RegisterPair};

verus! {

/// The implemented instructions, one variant per opcode byte.
#[derive(Clone, Copy, PartialEq, Eq, Debug, Structural)]
pub enum Opcode {
    Nop,
    LdBCXX,
    LdVBCA,
    IncBC,
    IncB,
    DecB,
    LdBX,
    RLCA,
    ExAFAF,
    AddHLBC,
    LdAVBC,
    DecBC,
    IncC,
    DecC,
    LdCX,
    LdDEXX,
    LdVDEA,
    IncDE,
    IncD,
    DecD,
    LdDX,
    AddHLDE,
    LdAVDE,
    DecDE,
    IncE,
    DecE,
    LdEX,
    LdHLXX,
    LdVXXHL,
    IncHL,
    IncH,
    DecH,
    LdHX,
    AddHLHL,
    LdHLVXX,
    DecHL,
    IncL,
    DecL,
    LdLX,
    CPL,
    LdSPXX,
    LdVXXA,
    IncSP,
    LdVHLX,
    SCF,
    AddHLSP,
    LdAVXX,
    DecSP,
    IncA,
    DecA,
    LdAX,
    CCF,
    LdBB,
    LdBC,
    LdBD,
    LdBE,
    LdBH,
    LdBL,
    LdBHL,
    LdBA,
    LdCB,
    LdCC,
    LdCD,
    LdCE,
    LdCH,
    LdCL,
    LdCHL,
    LdCA,
    LdDB,
    LdDC,
    LdDD,
    LdDE,
    LdDH,
    LdDL,
    LdDHL,
    LdDA,
    LdEB,
    LdEC,
    LdED,
    LdEE,
    LdEH,
    LdEL,
    LdEHL,
    LdEA,
    LdHB,
    LdHC,
    LdHD,
    LdHE,
    LdHH,
    LdHL,
    LdHHL,
    LdHA,
    LdLB,
    LdLC,
    LdLD,
    LdLE,
    LdLH,
    LdLL,
    LdLHL,
    LdLA,
    LdHLB,
    LdHLC,
    LdHLD,
    LdHLE,
    LdHLH,
    LdHLL,
    Halt,
    LdHLA,
    LdAB,
    LdAC,
    LdAD,
    LdAE,
    LdAH,
    LdAL,
    LdAHL,
    LdAA,
    AddB,
    AddC,
    AddD,
    AddE,
    AddH,
    AddL,
    AddA,
    AdcB,
    AdcC,
    AdcD,
    AdcE,
    AdcH,
    AdcL,
    AdcA,
    SubB,
    SubC,
    SubD,
    SubE,
    SubH,
    SubL,
    SubA,
    SbcB,
    SbcC,
    SbcD,
    SbcE,
    SbcH,
    SbcL,
    SbcA,
    AndB,
    AndC,
    AndD,
    AndE,
    AndH,
    AndL,
    AndA,
    XorB,
    XorC,
    XorD,
    XorE,
    XorH,
    XorL,
    XorA,
    OrB,
    OrC,
    OrD,
    OrE,
    OrH,
    OrL,
    OrA,
    RetNZ,
    PopBC,
    JpNZXX,
    JpXX,
    CallNZXX,
    PushBC,
    RetZ,
    Ret,
    JpZXX,
    CallZXX,
    CallXX,
    RetNC,
    PopDE,
    JpNCXX,
    CallNCXX,
    PushDE,
    RetC,
    Exx,
    JpCXX,
    CallCXX,
    RetPO,
    PopHL,
    JpPOXX,
    ExVSPHL,
    CallPOXX,
    PushHL,
    AndX,
    RetPE,
    JpPEXX,
    ExDEHL,
    CallPEXX,
    XorX,
    RetP,
    PopAF,
    JpPXX,
    CallPXX,
    PushAF,
    OrX,
    RetM,
    JpMXX,
    CallMXX,
}

/// The opcode that a byte encodes, if any.
pub open spec fn opcode_of(byte: u8) -> Option<Opcode> {
    match byte {
        0x00 => Some(Opcode::Nop),
        0x01 => Some(Opcode::LdBCXX),
        0x02 => Some(Opcode::LdVBCA),
        0x03 => Some(Opcode::IncBC),
        0x04 => Some(Opcode::IncB),
        0x05 => Some(Opcode::DecB),
        0x06 => Some(Opcode::LdBX),
        0x07 => Some(Opcode::RLCA),
        0x08 => Some(Opcode::ExAFAF),
        0x09 => Some(Opcode::AddHLBC),
        0x0A => Some(Opcode::LdAVBC),
        0x0B => Some(Opcode::DecBC),
        0x0C => Some(Opcode::IncC),
        0x0D => Some(Opcode::DecC),
        0x0E => Some(Opcode::LdCX),
        0x11 => Some(Opcode::LdDEXX),
        0x12 => Some(Opcode::LdVDEA),
        0x13 => Some(Opcode::IncDE),
        0x14 => Some(Opcode::IncD),
        0x15 => Some(Opcode::DecD),
        0x16 => Some(Opcode::LdDX),
        0x19 => Some(Opcode::AddHLDE),
        0x1A => Some(Opcode::LdAVDE),
        0x1B => Some(Opcode::DecDE),
        0x1C => Some(Opcode::IncE),
        0x1D => Some(Opcode::DecE),
        0x1E => Some(Opcode::LdEX),
        0x21 => Some(Opcode::LdHLXX),
        0x22 => Some(Opcode::LdVXXHL),
        0x23 => Some(Opcode::IncHL),
        0x24 => Some(Opcode::IncH),
        0x25 => Some(Opcode::DecH),
        0x26 => Some(Opcode::LdHX),
        0x29 => Some(Opcode::AddHLHL),
        0x2A => Some(Opcode::LdHLVXX),
        0x2B => Some(Opcode::DecHL),
        0x2C => Some(Opcode::IncL),
        0x2D => Some(Opcode::DecL),
        0x2E => Some(Opcode::LdLX),
        0x2F => Some(Opcode::CPL),
        0x31 => Some(Opcode::LdSPXX),
        0x32 => Some(Opcode::LdVXXA),
        0x33 => Some(Opcode::IncSP),
        0x36 => Some(Opcode::LdVHLX),
        0x37 => Some(Opcode::SCF),
        0x39 => Some(Opcode::AddHLSP),
        0x3A => Some(Opcode::LdAVXX),
        0x3B => Some(Opcode::DecSP),
        0x3C => Some(Opcode::IncA),
        0x3D => Some(Opcode::DecA),
        0x3E => Some(Opcode::LdAX),
        0x3F => Some(Opcode::CCF),
        0x40 => Some(Opcode::LdBB),
        0x41 => Some(Opcode::LdBC),
        0x42 => Some(Opcode::LdBD),
        0x43 => Some(Opcode::LdBE),
        0x44 => Some(Opcode::LdBH),
        0x45 => Some(Opcode::LdBL),
        0x46 => Some(Opcode::LdBHL),
        0x47 => Some(Opcode::LdBA),
        0x48 => Some(Opcode::LdCB),
        0x49 => Some(Opcode::LdCC),
        0x4A => Some(Opcode::LdCD),
        0x4B => Some(Opcode::LdCE),
        0x4C => Some(Opcode::LdCH),
        0x4D => Some(Opcode::LdCL),
        0x4E => Some(Opcode::LdCHL),
        0x4F => Some(Opcode::LdCA),
        0x50 => Some(Opcode::LdDB),
        0x51 => Some(Opcode::LdDC),
        0x52 => Some(Opcode::LdDD),
        0x53 => Some(Opcode::LdDE),
        0x54 => Some(Opcode::LdDH),
        0x55 => Some(Opcode::LdDL),
        0x56 => Some(Opcode::LdDHL),
        0x57 => Some(Opcode::LdDA),
        0x58 => Some(Opcode::LdEB),
        0x59 => Some(Opcode::LdEC),
        0x5A => Some(Opcode::LdED),
        0x5B => Some(Opcode::LdEE),
        0x5C => Some(Opcode::LdEH),
        0x5D => Some(Opcode::LdEL),
        0x5E => Some(Opcode::LdEHL),
        0x5F => Some(Opcode::LdEA),
        0x60 => Some(Opcode::LdHB),
        0x61 => Some(Opcode::LdHC),
        0x62 => Some(Opcode::LdHD),
        0x63 => Some(Opcode::LdHE),
        0x64 => Some(Opcode::LdHH),
        0x65 => Some(Opcode::LdHL),
        0x66 => Some(Opcode::LdHHL),
        0x67 => Some(Opcode::LdHA),
        0x68 => Some(Opcode::LdLB),
        0x69 => Some(Opcode::LdLC),
        0x6A => Some(Opcode::LdLD),
        0x6B => Some(Opcode::LdLE),
        0x6C => Some(Opcode::LdLH),
        0x6D => Some(Opcode::LdLL),
        0x6E => Some(Opcode::LdLHL),
        0x6F => Some(Opcode::LdLA),
        0x70 => Some(Opcode::LdHLB),
        0x71 => Some(Opcode::LdHLC),
        0x72 => Some(Opcode::LdHLD),
        0x73 => Some(Opcode::LdHLE),
        0x74 => Some(Opcode::LdHLH),
        0x75 => Some(Opcode::LdHLL),
        0x76 => Some(Opcode::Halt),
        0x77 => Some(Opcode::LdHLA),
        0x78 => Some(Opcode::LdAB),
        0x79 => Some(Opcode::LdAC),
        0x7A => Some(Opcode::LdAD),
        0x7B => Some(Opcode::LdAE),
        0x7C => Some(Opcode::LdAH),
        0x7D => Some(Opcode::LdAL),
        0x7E => Some(Opcode::LdAHL),
        0x7F => Some(Opcode::LdAA),
        0x80 => Some(Opcode::AddB),
        0x81 => Some(Opcode::AddC),
        0x82 => Some(Opcode::AddD),
        0x83 => Some(Opcode::AddE),
        0x84 => Some(Opcode::AddH),
        0x85 => Some(Opcode::AddL),
        0x87 => Some(Opcode::AddA),
        0x88 => Some(Opcode::AdcB),
        0x89 => Some(Opcode::AdcC),
        0x8A => Some(Opcode::AdcD),
        0x8B => Some(Opcode::AdcE),
        0x8C => Some(Opcode::AdcH),
        0x8D => Some(Opcode::AdcL),
        0x8F => Some(Opcode::AdcA),
        0x90 => Some(Opcode::SubB),
        0x91 => Some(Opcode::SubC),
        0x92 => Some(Opcode::SubD),
        0x93 => Some(Opcode::SubE),
        0x94 => Some(Opcode::SubH),
        0x95 => Some(Opcode::SubL),
        0x97 => Some(Opcode::SubA),
        0x98 => Some(Opcode::SbcB),
        0x99 => Some(Opcode::SbcC),
        0x9A => Some(Opcode::SbcD),
        0x9B => Some(Opcode::SbcE),
        0x9C => Some(Opcode::SbcH),
        0x9D => Some(Opcode::SbcL),
        0x9F => Some(Opcode::SbcA),
        0xA0 => Some(Opcode::AndB),
        0xA1 => Some(Opcode::AndC),
        0xA2 => Some(Opcode::AndD),
        0xA3 => Some(Opcode::AndE),
        0xA4 => Some(Opcode::AndH),
        0xA5 => Some(Opcode::AndL),
        0xA7 => Some(Opcode::AndA),
        0xA8 => Some(Opcode::XorB),
        0xA9 => Some(Opcode::XorC),
        0xAA => Some(Opcode::XorD),
        0xAB => Some(Opcode::XorE),
        0xAC => Some(Opcode::XorH),
        0xAD => Some(Opcode::XorL),
        0xAF => Some(Opcode::XorA),
        0xB0 => Some(Opcode::OrB),
        0xB1 => Some(Opcode::OrC),
        0xB2 => Some(Opcode::OrD),
        0xB3 => Some(Opcode::OrE),
        0xB4 => Some(Opcode::OrH),
        0xB5 => Some(Opcode::OrL),
        0xB7 => Some(Opcode::OrA),
        0xC0 => Some(Opcode::RetNZ),
        0xC1 => Some(Opcode::PopBC),
        0xC2 => Some(Opcode::JpNZXX),
        0xC3 => Some(Opcode::JpXX),
        0xC4 => Some(Opcode::CallNZXX),
        0xC5 => Some(Opcode::PushBC),
        0xC8 => Some(Opcode::RetZ),
        0xC9 => Some(Opcode::Ret),
        0xCA => Some(Opcode::JpZXX),
        0xCC => Some(Opcode::CallZXX),
        0xCD => Some(Opcode::CallXX),
        0xD0 => Some(Opcode::RetNC),
        0xD1 => Some(Opcode::PopDE),
        0xD2 => Some(Opcode::JpNCXX),
        0xD4 => Some(Opcode::CallNCXX),
        0xD5 => Some(Opcode::PushDE),
        0xD8 => Some(Opcode::RetC),
        0xD9 => Some(Opcode::Exx),
        0xDA => Some(Opcode::JpCXX),
        0xDC => Some(Opcode::CallCXX),
        0xE0 => Some(Opcode::RetPO),
        0xE1 => Some(Opcode::PopHL),
        0xE2 => Some(Opcode::JpPOXX),
        0xE3 => Some(Opcode::ExVSPHL),
        0xE4 => Some(Opcode::CallPOXX),
        0xE5 => Some(Opcode::PushHL),
        0xE6 => Some(Opcode::AndX),
        0xE8 => Some(Opcode::RetPE),
        0xEA => Some(Opcode::JpPEXX),
        0xEB => Some(Opcode::ExDEHL),
        0xEC => Some(Opcode::CallPEXX),
        0xEE => Some(Opcode::XorX),
        0xF0 => Some(Opcode::RetP),
        0xF1 => Some(Opcode::PopAF),
        0xF2 => Some(Opcode::JpPXX),
        0xF4 => Some(Opcode::CallPXX),
        0xF5 => Some(Opcode::PushAF),
        0xF6 => Some(Opcode::OrX),
        0xF8 => Some(Opcode::RetM),
        0xFA => Some(Opcode::JpMXX),
        0xFC => Some(Opcode::CallMXX),
        _ => None,
    }
}

impl Opcode {
    /// The byte that encodes this opcode.
    pub open spec fn byte(self) -> u8 {
        match self {
            Opcode::Nop => 0x00,
            Opcode::LdBCXX => 0x01,
            Opcode::LdVBCA => 0x02,
            Opcode::IncBC => 0x03,
            Opcode::IncB => 0x04,
            Opcode::DecB => 0x05,
            Opcode::LdBX => 0x06,
            Opcode::RLCA => 0x07,
            Opcode::ExAFAF => 0x08,
            Opcode::AddHLBC => 0x09,
            Opcode::LdAVBC => 0x0A,
            Opcode::DecBC => 0x0B,
            Opcode::IncC => 0x0C,
            Opcode::DecC => 0x0D,
            Opcode::LdCX => 0x0E,
            Opcode::LdDEXX => 0x11,
            Opcode::LdVDEA => 0x12,
            Opcode::IncDE => 0x13,
            Opcode::IncD => 0x14,
            Opcode::DecD => 0x15,
            Opcode::LdDX => 0x16,
            Opcode::AddHLDE => 0x19,
            Opcode::LdAVDE => 0x1A,
            Opcode::DecDE => 0x1B,
            Opcode::IncE => 0x1C,
            Opcode::DecE => 0x1D,
            Opcode::LdEX => 0x1E,
            Opcode::LdHLXX => 0x21,
            Opcode::LdVXXHL => 0x22,
            Opcode::IncHL => 0x23,
            Opcode::IncH => 0x24,
            Opcode::DecH => 0x25,
            Opcode::LdHX => 0x26,
            Opcode::AddHLHL => 0x29,
            Opcode::LdHLVXX => 0x2A,
            Opcode::DecHL => 0x2B,
            Opcode::IncL => 0x2C,
            Opcode::DecL => 0x2D,
            Opcode::LdLX => 0x2E,
            Opcode::CPL => 0x2F,
            Opcode::LdSPXX => 0x31,
            Opcode::LdVXXA => 0x32,
            Opcode::IncSP => 0x33,
            Opcode::LdVHLX => 0x36,
            Opcode::SCF => 0x37,
            Opcode::AddHLSP => 0x39,
            Opcode::LdAVXX => 0x3A,
            Opcode::DecSP => 0x3B,
            Opcode::IncA => 0x3C,
            Opcode::DecA => 0x3D,
            Opcode::LdAX => 0x3E,
            Opcode::CCF => 0x3F,
            Opcode::LdBB => 0x40,
            Opcode::LdBC => 0x41,
            Opcode::LdBD => 0x42,
            Opcode::LdBE => 0x43,
            Opcode::LdBH => 0x44,
            Opcode::LdBL => 0x45,
            Opcode::LdBHL => 0x46,
            Opcode::LdBA => 0x47,
            Opcode::LdCB => 0x48,
            Opcode::LdCC => 0x49,
            Opcode::LdCD => 0x4A,
            Opcode::LdCE => 0x4B,
            Opcode::LdCH => 0x4C,
            Opcode::LdCL => 0x4D,
            Opcode::LdCHL => 0x4E,
            Opcode::LdCA => 0x4F,
            Opcode::LdDB => 0x50,
            Opcode::LdDC => 0x51,
            Opcode::LdDD => 0x52,
            Opcode::LdDE => 0x53,
            Opcode::LdDH => 0x54,
            Opcode::LdDL => 0x55,
            Opcode::LdDHL => 0x56,
            Opcode::LdDA => 0x57,
            Opcode::LdEB => 0x58,
            Opcode::LdEC => 0x59,
            Opcode::LdED => 0x5A,
            Opcode::LdEE => 0x5B,
            Opcode::LdEH => 0x5C,
            Opcode::LdEL => 0x5D,
            Opcode::LdEHL => 0x5E,
            Opcode::LdEA => 0x5F,
            Opcode::LdHB => 0x60,
            Opcode::LdHC => 0x61,
            Opcode::LdHD => 0x62,
            Opcode::LdHE => 0x63,
            Opcode::LdHH => 0x64,
            Opcode::LdHL => 0x65,
            Opcode::LdHHL => 0x66,
            Opcode::LdHA => 0x67,
            Opcode::LdLB => 0x68,
            Opcode::LdLC => 0x69,
            Opcode::LdLD => 0x6A,
            Opcode::LdLE => 0x6B,
            Opcode::LdLH => 0x6C,
            Opcode::LdLL => 0x6D,
            Opcode::LdLHL => 0x6E,
            Opcode::LdLA => 0x6F,
            Opcode::LdHLB => 0x70,
            Opcode::LdHLC => 0x71,
            Opcode::LdHLD => 0x72,
            Opcode::LdHLE => 0x73,
            Opcode::LdHLH => 0x74,
            Opcode::LdHLL => 0x75,
            Opcode::Halt => 0x76,
            Opcode::LdHLA => 0x77,
            Opcode::LdAB => 0x78,
            Opcode::LdAC => 0x79,
            Opcode::LdAD => 0x7A,
            Opcode::LdAE => 0x7B,
            Opcode::LdAH => 0x7C,
            Opcode::LdAL => 0x7D,
            Opcode::LdAHL => 0x7E,
            Opcode::LdAA => 0x7F,
            Opcode::AddB => 0x80,
            Opcode::AddC => 0x81,
            Opcode::AddD => 0x82,
            Opcode::AddE => 0x83,
            Opcode::AddH => 0x84,
            Opcode::AddL => 0x85,
            Opcode::AddA => 0x87,
            Opcode::AdcB => 0x88,
            Opcode::AdcC => 0x89,
            Opcode::AdcD => 0x8A,
            Opcode::AdcE => 0x8B,
            Opcode::AdcH => 0x8C,
            Opcode::AdcL => 0x8D,
            Opcode::AdcA => 0x8F,
            Opcode::SubB => 0x90,
            Opcode::SubC => 0x91,
            Opcode::SubD => 0x92,
            Opcode::SubE => 0x93,
            Opcode::SubH => 0x94,
            Opcode::SubL => 0x95,
            Opcode::SubA => 0x97,
            Opcode::SbcB => 0x98,
            Opcode::SbcC => 0x99,
            Opcode::SbcD => 0x9A,
            Opcode::SbcE => 0x9B,
            Opcode::SbcH => 0x9C,
            Opcode::SbcL => 0x9D,
            Opcode::SbcA => 0x9F,
            Opcode::AndB => 0xA0,
            Opcode::AndC => 0xA1,
            Opcode::AndD => 0xA2,
            Opcode::AndE => 0xA3,
            Opcode::AndH => 0xA4,
            Opcode::AndL => 0xA5,
            Opcode::AndA => 0xA7,
            Opcode::XorB => 0xA8,
            Opcode::XorC => 0xA9,
            Opcode::XorD => 0xAA,
            Opcode::XorE => 0xAB,
            Opcode::XorH => 0xAC,
            Opcode::XorL => 0xAD,
            Opcode::XorA => 0xAF,
            Opcode::OrB => 0xB0,
            Opcode::OrC => 0xB1,
            Opcode::OrD => 0xB2,
            Opcode::OrE => 0xB3,
            Opcode::OrH => 0xB4,
            Opcode::OrL => 0xB5,
            Opcode::OrA => 0xB7,
            Opcode::RetNZ => 0xC0,
            Opcode::PopBC => 0xC1,
            Opcode::JpNZXX => 0xC2,
            Opcode::JpXX => 0xC3,
            Opcode::CallNZXX => 0xC4,
            Opcode::PushBC => 0xC5,
            Opcode::RetZ => 0xC8,
            Opcode::Ret => 0xC9,
            Opcode::JpZXX => 0xCA,
            Opcode::CallZXX => 0xCC,
            Opcode::CallXX => 0xCD,
            Opcode::RetNC => 0xD0,
            Opcode::PopDE => 0xD1,
            Opcode::JpNCXX => 0xD2,
            Opcode::CallNCXX => 0xD4,
            Opcode::PushDE => 0xD5,
            Opcode::RetC => 0xD8,
            Opcode::Exx => 0xD9,
            Opcode::JpCXX => 0xDA,
            Opcode::CallCXX => 0xDC,
            Opcode::RetPO => 0xE0,
            Opcode::PopHL => 0xE1,
            Opcode::JpPOXX => 0xE2,
            Opcode::ExVSPHL => 0xE3,
            Opcode::CallPOXX => 0xE4,
            Opcode::PushHL => 0xE5,
            Opcode::AndX => 0xE6,
            Opcode::RetPE => 0xE8,
            Opcode::JpPEXX => 0xEA,
            Opcode::ExDEHL => 0xEB,
            Opcode::CallPEXX => 0xEC,
            Opcode::XorX => 0xEE,
            Opcode::RetP => 0xF0,
            Opcode::PopAF => 0xF1,
            Opcode::JpPXX => 0xF2,
            Opcode::CallPXX => 0xF4,
            Opcode::PushAF => 0xF5,
            Opcode::OrX => 0xF6,
            Opcode::RetM => 0xF8,
            Opcode::JpMXX => 0xFA,
            Opcode::CallMXX => 0xFC,
        }
    }

    /// What this opcode does.
    pub open spec fn spec_instruction(self) -> Instruction {
        match self {
            Opcode::Nop => Instruction::Nop,
            Opcode::LdBCXX => Instruction::LoadPairImmediate(RegisterPair::BC),
            Opcode::LdVBCA => Instruction::StoreToPointer(RegisterPair::BC, Register::A),
            Opcode::IncBC => Instruction::IncrementPair(RegisterPair::BC),
            Opcode::IncB => Instruction::Increment(Register::B),
            Opcode::DecB => Instruction::Decrement(Register::B),
            Opcode::LdBX => Instruction::LoadImmediate(Register::B),
            Opcode::RLCA => Instruction::RotateLeft,
            Opcode::ExAFAF => Instruction::ExchangeAf,
            Opcode::AddHLBC => Instruction::AddPairToHl(RegisterPair::BC),
            Opcode::LdAVBC => Instruction::LoadFromPointer(Register::A, RegisterPair::BC),
            Opcode::DecBC => Instruction::DecrementPair(RegisterPair::BC),
            Opcode::IncC => Instruction::Increment(Register::C),
            Opcode::DecC => Instruction::Decrement(Register::C),
            Opcode::LdCX => Instruction::LoadImmediate(Register::C),
            Opcode::LdDEXX => Instruction::LoadPairImmediate(RegisterPair::DE),
            Opcode::LdVDEA => Instruction::StoreToPointer(RegisterPair::DE, Register::A),
            Opcode::IncDE => Instruction::IncrementPair(RegisterPair::DE),
            Opcode::IncD => Instruction::Increment(Register::D),
            Opcode::DecD => Instruction::Decrement(Register::D),
            Opcode::LdDX => Instruction::LoadImmediate(Register::D),
            Opcode::AddHLDE => Instruction::AddPairToHl(RegisterPair::DE),
            Opcode::LdAVDE => Instruction::LoadFromPointer(Register::A, RegisterPair::DE),
            Opcode::DecDE => Instruction::DecrementPair(RegisterPair::DE),
            Opcode::IncE => Instruction::Increment(Register::E),
            Opcode::DecE => Instruction::Decrement(Register::E),
            Opcode::LdEX => Instruction::LoadImmediate(Register::E),
            Opcode::LdHLXX => Instruction::LoadPairImmediate(RegisterPair::HL),
            Opcode::LdVXXHL => Instruction::StorePairAbsolute(RegisterPair::HL),
            Opcode::IncHL => Instruction::IncrementPair(RegisterPair::HL),
            Opcode::IncH => Instruction::Increment(Register::H),
            Opcode::DecH => Instruction::Decrement(Register::H),
            Opcode::LdHX => Instruction::LoadImmediate(Register::H),
            Opcode::AddHLHL => Instruction::AddPairToHl(RegisterPair::HL),
            Opcode::LdHLVXX => Instruction::LoadPairAbsolute(RegisterPair::HL),
            Opcode::DecHL => Instruction::DecrementPair(RegisterPair::HL),
            Opcode::IncL => Instruction::Increment(Register::L),
            Opcode::DecL => Instruction::Decrement(Register::L),
            Opcode::LdLX => Instruction::LoadImmediate(Register::L),
            Opcode::CPL => Instruction::Complement,
            Opcode::LdSPXX => Instruction::LoadPairImmediate(RegisterPair::SP),
            Opcode::LdVXXA => Instruction::StoreAbsolute(Register::A),
            Opcode::IncSP => Instruction::IncrementPair(RegisterPair::SP),
            Opcode::LdVHLX => Instruction::StoreImmediateToPointer(RegisterPair::HL),
            Opcode::SCF => Instruction::SetCarry,
            Opcode::AddHLSP => Instruction::AddPairToHl(RegisterPair::SP),
            Opcode::LdAVXX => Instruction::LoadAbsolute(Register::A),
            Opcode::DecSP => Instruction::DecrementPair(RegisterPair::SP),
            Opcode::IncA => Instruction::Increment(Register::A),
            Opcode::DecA => Instruction::Decrement(Register::A),
            Opcode::LdAX => Instruction::LoadImmediate(Register::A),
            Opcode::CCF => Instruction::ComplementCarry,
            Opcode::LdBB => Instruction::Move(Register::B, Register::B),
            Opcode::LdBC => Instruction::Move(Register::B, Register::C),
            Opcode::LdBD => Instruction::Move(Register::B, Register::D),
            Opcode::LdBE => Instruction::Move(Register::B, Register::E),
            Opcode::LdBH => Instruction::Move(Register::B, Register::H),
            Opcode::LdBL => Instruction::Move(Register::B, Register::L),
            Opcode::LdBHL => Instruction::LoadFromPointer(Register::B, RegisterPair::HL),
            Opcode::LdBA => Instruction::Move(Register::B, Register::A),
            Opcode::LdCB => Instruction::Move(Register::C, Register::B),
            Opcode::LdCC => Instruction::Move(Register::C, Register::C),
            Opcode::LdCD => Instruction::Move(Register::C, Register::D),
            Opcode::LdCE => Instruction::Move(Register::C, Register::E),
            Opcode::LdCH => Instruction::Move(Register::C, Register::H),
            Opcode::LdCL => Instruction::Move(Register::C, Register::L),
            Opcode::LdCHL => Instruction::LoadFromPointer(Register::C, RegisterPair::HL),
            Opcode::LdCA => Instruction::Move(Register::C, Register::A),
            Opcode::LdDB => Instruction::Move(Register::D, Register::B),
            Opcode::LdDC => Instruction::Move(Register::D, Register::C),
            Opcode::LdDD => Instruction::Move(Register::D, Register::D),
            Opcode::LdDE => Instruction::Move(Register::D, Register::E),
            Opcode::LdDH => Instruction::Move(Register::D, Register::H),
            Opcode::LdDL => Instruction::Move(Register::D, Register::L),
            Opcode::LdDHL => Instruction::LoadFromPointer(Register::D, RegisterPair::HL),
            Opcode::LdDA => Instruction::Move(Register::D, Register::A),
            Opcode::LdEB => Instruction::Move(Register::E, Register::B),
            Opcode::LdEC => Instruction::Move(Register::E, Register::C),
            Opcode::LdED => Instruction::Move(Register::E, Register::D),
            Opcode::LdEE => Instruction::Move(Register::E, Register::E),
            Opcode::LdEH => Instruction::Move(Register::E, Register::H),
            Opcode::LdEL => Instruction::Move(Register::E, Register::L),
            Opcode::LdEHL => Instruction::LoadFromPointer(Register::E, RegisterPair::HL),
            Opcode::LdEA => Instruction::Move(Register::E, Register::A),
            Opcode::LdHB => Instruction::Move(Register::H, Register::B),
            Opcode::LdHC => Instruction::Move(Register::H, Register::C),
            Opcode::LdHD => Instruction::Move(Register::H, Register::D),
            Opcode::LdHE => Instruction::Move(Register::H, Register::E),
            Opcode::LdHH => Instruction::Move(Register::H, Register::H),
            Opcode::LdHL => Instruction::Move(Register::H, Register::L),
            Opcode::LdHHL => Instruction::LoadFromPointer(Register::H, RegisterPair::HL),
            Opcode::LdHA => Instruction::Move(Register::H, Register::A),
            Opcode::LdLB => Instruction::Move(Register::L, Register::B),
            Opcode::LdLC => Instruction::Move(Register::L, Register::C),
            Opcode::LdLD => Instruction::Move(Register::L, Register::D),
            Opcode::LdLE => Instruction::Move(Register::L, Register::E),
            Opcode::LdLH => Instruction::Move(Register::L, Register::H),
            Opcode::LdLL => Instruction::Move(Register::L, Register::L),
            Opcode::LdLHL => Instruction::LoadFromPointer(Register::L, RegisterPair::HL),
            Opcode::LdLA => Instruction::Move(Register::L, Register::A),
            Opcode::LdHLB => Instruction::StoreToPointer(RegisterPair::HL, Register::B),
            Opcode::LdHLC => Instruction::StoreToPointer(RegisterPair::HL, Register::C),
            Opcode::LdHLD => Instruction::StoreToPointer(RegisterPair::HL, Register::D),
            Opcode::LdHLE => Instruction::StoreToPointer(RegisterPair::HL, Register::E),
            Opcode::LdHLH => Instruction::StoreToPointer(RegisterPair::HL, Register::H),
            Opcode::LdHLL => Instruction::StoreToPointer(RegisterPair::HL, Register::L),
            Opcode::Halt => Instruction::Halt,
            Opcode::LdHLA => Instruction::StoreToPointer(RegisterPair::HL, Register::A),
            Opcode::LdAB => Instruction::Move(Register::A, Register::B),
            Opcode::LdAC => Instruction::Move(Register::A, Register::C),
            Opcode::LdAD => Instruction::Move(Register::A, Register::D),
            Opcode::LdAE => Instruction::Move(Register::A, Register::E),
            Opcode::LdAH => Instruction::Move(Register::A, Register::H),
            Opcode::LdAL => Instruction::Move(Register::A, Register::L),
            Opcode::LdAHL => Instruction::LoadFromPointer(Register::A, RegisterPair::HL),
            Opcode::LdAA => Instruction::Move(Register::A, Register::A),
            Opcode::AddB => Instruction::Add(Register::B),
            Opcode::AddC => Instruction::Add(Register::C),
            Opcode::AddD => Instruction::Add(Register::D),
            Opcode::AddE => Instruction::Add(Register::E),
            Opcode::AddH => Instruction::Add(Register::H),
            Opcode::AddL => Instruction::Add(Register::L),
            Opcode::AddA => Instruction::Add(Register::A),
            Opcode::AdcB => Instruction::AddCarry(Register::B),
            Opcode::AdcC => Instruction::AddCarry(Register::C),
            Opcode::AdcD => Instruction::AddCarry(Register::D),
            Opcode::AdcE => Instruction::AddCarry(Register::E),
            Opcode::AdcH => Instruction::AddCarry(Register::H),
            Opcode::AdcL => Instruction::AddCarry(Register::L),
            Opcode::AdcA => Instruction::AddCarry(Register::A),
            Opcode::SubB => Instruction::Subtract(Register::B),
            Opcode::SubC => Instruction::Subtract(Register::C),
            Opcode::SubD => Instruction::Subtract(Register::D),
            Opcode::SubE => Instruction::Subtract(Register::E),
            Opcode::SubH => Instruction::Subtract(Register::H),
            Opcode::SubL => Instruction::Subtract(Register::L),
            Opcode::SubA => Instruction::Subtract(Register::A),
            Opcode::SbcB => Instruction::SubtractCarry(Register::B),
            Opcode::SbcC => Instruction::SubtractCarry(Register::C),
            Opcode::SbcD => Instruction::SubtractCarry(Register::D),
            Opcode::SbcE => Instruction::SubtractCarry(Register::E),
            Opcode::SbcH => Instruction::SubtractCarry(Register::H),
            Opcode::SbcL => Instruction::SubtractCarry(Register::L),
            Opcode::SbcA => Instruction::SubtractCarry(Register::A),
            Opcode::AndB => Instruction::Bitwise(LogicOp::And, Register::B),
            Opcode::AndC => Instruction::Bitwise(LogicOp::And, Register::C),
            Opcode::AndD => Instruction::Bitwise(LogicOp::And, Register::D),
            Opcode::AndE => Instruction::Bitwise(LogicOp::And, Register::E),
            Opcode::AndH => Instruction::Bitwise(LogicOp::And, Register::H),
            Opcode::AndL => Instruction::Bitwise(LogicOp::And, Register::L),
            Opcode::AndA => Instruction::Bitwise(LogicOp::And, Register::A),
            Opcode::XorB => Instruction::Bitwise(LogicOp::Xor, Register::B),
            Opcode::XorC => Instruction::Bitwise(LogicOp::Xor, Register::C),
            Opcode::XorD => Instruction::Bitwise(LogicOp::Xor, Register::D),
            Opcode::XorE => Instruction::Bitwise(LogicOp::Xor, Register::E),
            Opcode::XorH => Instruction::Bitwise(LogicOp::Xor, Register::H),
            Opcode::XorL => Instruction::Bitwise(LogicOp::Xor, Register::L),
            Opcode::XorA => Instruction::Bitwise(LogicOp::Xor, Register::A),
            Opcode::OrB => Instruction::Bitwise(LogicOp::Or, Register::B),
            Opcode::OrC => Instruction::Bitwise(LogicOp::Or, Register::C),
            Opcode::OrD => Instruction::Bitwise(LogicOp::Or, Register::D),
            Opcode::OrE => Instruction::Bitwise(LogicOp::Or, Register::E),
            Opcode::OrH => Instruction::Bitwise(LogicOp::Or, Register::H),
            Opcode::OrL => Instruction::Bitwise(LogicOp::Or, Register::L),
            Opcode::OrA => Instruction::Bitwise(LogicOp::Or, Register::A),
            Opcode::RetNZ => Instruction::ReturnIf(Condition::NonZero),
            Opcode::PopBC => Instruction::Pop(RegisterPair::BC),
            Opcode::JpNZXX => Instruction::Jump(Condition::NonZero),
            Opcode::JpXX => Instruction::Jump(Condition::Always),
            Opcode::CallNZXX => Instruction::Call(Condition::NonZero),
            Opcode::PushBC => Instruction::Push(RegisterPair::BC),
            Opcode::RetZ => Instruction::ReturnIf(Condition::Zero),
            Opcode::Ret => Instruction::Return,
            Opcode::JpZXX => Instruction::Jump(Condition::Zero),
            Opcode::CallZXX => Instruction::Call(Condition::Zero),
            Opcode::CallXX => Instruction::Call(Condition::Always),
            Opcode::RetNC => Instruction::ReturnIf(Condition::NoCarry),
            Opcode::PopDE => Instruction::Pop(RegisterPair::DE),
            Opcode::JpNCXX => Instruction::Jump(Condition::NoCarry),
            Opcode::CallNCXX => Instruction::Call(Condition::NoCarry),
            Opcode::PushDE => Instruction::Push(RegisterPair::DE),
            Opcode::RetC => Instruction::ReturnIf(Condition::Carry),
            Opcode::Exx => Instruction::ExchangeShadow,
            Opcode::JpCXX => Instruction::Jump(Condition::Carry),
            Opcode::CallCXX => Instruction::Call(Condition::Carry),
            Opcode::RetPO => Instruction::ReturnIf(Condition::ParityOdd),
            Opcode::PopHL => Instruction::Pop(RegisterPair::HL),
            Opcode::JpPOXX => Instruction::Jump(Condition::ParityOdd),
            Opcode::ExVSPHL => Instruction::ExchangeStackHl,
            Opcode::CallPOXX => Instruction::Call(Condition::ParityOdd),
            Opcode::PushHL => Instruction::Push(RegisterPair::HL),
            Opcode::AndX => Instruction::BitwiseValue(LogicOp::And),
            Opcode::RetPE => Instruction::ReturnIf(Condition::ParityEven),
            Opcode::JpPEXX => Instruction::Jump(Condition::ParityEven),
            Opcode::ExDEHL => Instruction::ExchangeDeHl,
            Opcode::CallPEXX => Instruction::Call(Condition::ParityEven),
            Opcode::XorX => Instruction::BitwiseValue(LogicOp::Xor),
            Opcode::RetP => Instruction::ReturnIf(Condition::Positive),
            Opcode::PopAF => Instruction::Pop(RegisterPair::AF),
            Opcode::JpPXX => Instruction::Jump(Condition::Positive),
            Opcode::CallPXX => Instruction::Call(Condition::Positive),
            Opcode::PushAF => Instruction::Push(RegisterPair::AF),
            Opcode::OrX => Instruction::BitwiseValue(LogicOp::Or),
            Opcode::RetM => Instruction::ReturnIf(Condition::Negative),
            Opcode::JpMXX => Instruction::Jump(Condition::Negative),
            Opcode::CallMXX => Instruction::Call(Condition::Negative),
        }
    }

    /// The byte that encodes this opcode.
    pub fn to_u8(self) -> (r: u8)
        ensures
            r == self.byte(),
    {
        match self {
            Opcode::Nop => 0x00,
            Opcode::LdBCXX => 0x01,
            Opcode::LdVBCA => 0x02,
            Opcode::IncBC => 0x03,
            Opcode::IncB => 0x04,
            Opcode::DecB => 0x05,
            Opcode::LdBX => 0x06,
            Opcode::RLCA => 0x07,
            Opcode::ExAFAF => 0x08,
            Opcode::AddHLBC => 0x09,
            Opcode::LdAVBC => 0x0A,
            Opcode::DecBC => 0x0B,
            Opcode::IncC => 0x0C,
            Opcode::DecC => 0x0D,
            Opcode::LdCX => 0x0E,
            Opcode::LdDEXX => 0x11,
            Opcode::LdVDEA => 0x12,
            Opcode::IncDE => 0x13,
            Opcode::IncD => 0x14,
            Opcode::DecD => 0x15,
            Opcode::LdDX => 0x16,
            Opcode::AddHLDE => 0x19,
            Opcode::LdAVDE => 0x1A,
            Opcode::DecDE => 0x1B,
            Opcode::IncE => 0x1C,
            Opcode::DecE => 0x1D,
            Opcode::LdEX => 0x1E,
            Opcode::LdHLXX => 0x21,
            Opcode::LdVXXHL => 0x22,
            Opcode::IncHL => 0x23,
            Opcode::IncH => 0x24,
            Opcode::DecH => 0x25,
            Opcode::LdHX => 0x26,
            Opcode::AddHLHL => 0x29,
            Opcode::LdHLVXX => 0x2A,
            Opcode::DecHL => 0x2B,
            Opcode::IncL => 0x2C,
            Opcode::DecL => 0x2D,
            Opcode::LdLX => 0x2E,
            Opcode::CPL => 0x2F,
            Opcode::LdSPXX => 0x31,
            Opcode::LdVXXA => 0x32,
            Opcode::IncSP => 0x33,
            Opcode::LdVHLX => 0x36,
            Opcode::SCF => 0x37,
            Opcode::AddHLSP => 0x39,
            Opcode::LdAVXX => 0x3A,
            Opcode::DecSP => 0x3B,
            Opcode::IncA => 0x3C,
            Opcode::DecA => 0x3D,
            Opcode::LdAX => 0x3E,
            Opcode::CCF => 0x3F,
            Opcode::LdBB => 0x40,
            Opcode::LdBC => 0x41,
            Opcode::LdBD => 0x42,
            Opcode::LdBE => 0x43,
            Opcode::LdBH => 0x44,
            Opcode::LdBL => 0x45,
            Opcode::LdBHL => 0x46,
            Opcode::LdBA => 0x47,
            Opcode::LdCB => 0x48,
            Opcode::LdCC => 0x49,
            Opcode::LdCD => 0x4A,
            Opcode::LdCE => 0x4B,
            Opcode::LdCH => 0x4C,
            Opcode::LdCL => 0x4D,
            Opcode::LdCHL => 0x4E,
            Opcode::LdCA => 0x4F,
            Opcode::LdDB => 0x50,
            Opcode::LdDC => 0x51,
            Opcode::LdDD => 0x52,
            Opcode::LdDE => 0x53,
            Opcode::LdDH => 0x54,
            Opcode::LdDL => 0x55,
            Opcode::LdDHL => 0x56,
            Opcode::LdDA => 0x57,
            Opcode::LdEB => 0x58,
            Opcode::LdEC => 0x59,
            Opcode::LdED => 0x5A,
            Opcode::LdEE => 0x5B,
            Opcode::LdEH => 0x5C,
            Opcode::LdEL => 0x5D,
            Opcode::LdEHL => 0x5E,
            Opcode::LdEA => 0x5F,
            Opcode::LdHB => 0x60,
            Opcode::LdHC => 0x61,
            Opcode::LdHD => 0x62,
            Opcode::LdHE => 0x63,
            Opcode::LdHH => 0x64,
            Opcode::LdHL => 0x65,
            Opcode::LdHHL => 0x66,
            Opcode::LdHA => 0x67,
            Opcode::LdLB => 0x68,
            Opcode::LdLC => 0x69,
            Opcode::LdLD => 0x6A,
            Opcode::LdLE => 0x6B,
            Opcode::LdLH => 0x6C,
            Opcode::LdLL => 0x6D,
            Opcode::LdLHL => 0x6E,
            Opcode::LdLA => 0x6F,
            Opcode::LdHLB => 0x70,
            Opcode::LdHLC => 0x71,
            Opcode::LdHLD => 0x72,
            Opcode::LdHLE => 0x73,
            Opcode::LdHLH => 0x74,
            Opcode::LdHLL => 0x75,
            Opcode::Halt => 0x76,
            Opcode::LdHLA => 0x77,
            Opcode::LdAB => 0x78,
            Opcode::LdAC => 0x79,
            Opcode::LdAD => 0x7A,
            Opcode::LdAE => 0x7B,
            Opcode::LdAH => 0x7C,
            Opcode::LdAL => 0x7D,
            Opcode::LdAHL => 0x7E,
            Opcode::LdAA => 0x7F,
            Opcode::AddB => 0x80,
            Opcode::AddC => 0x81,
            Opcode::AddD => 0x82,
            Opcode::AddE => 0x83,
            Opcode::AddH => 0x84,
            Opcode::AddL => 0x85,
            Opcode::AddA => 0x87,
            Opcode::AdcB => 0x88,
            Opcode::AdcC => 0x89,
            Opcode::AdcD => 0x8A,
            Opcode::AdcE => 0x8B,
            Opcode::AdcH => 0x8C,
            Opcode::AdcL => 0x8D,
            Opcode::AdcA => 0x8F,
            Opcode::SubB => 0x90,
            Opcode::SubC => 0x91,
            Opcode::SubD => 0x92,
            Opcode::SubE => 0x93,
            Opcode::SubH => 0x94,
            Opcode::SubL => 0x95,
            Opcode::SubA => 0x97,
            Opcode::SbcB => 0x98,
            Opcode::SbcC => 0x99,
            Opcode::SbcD => 0x9A,
            Opcode::SbcE => 0x9B,
            Opcode::SbcH => 0x9C,
            Opcode::SbcL => 0x9D,
            Opcode::SbcA => 0x9F,
            Opcode::AndB => 0xA0,
            Opcode::AndC => 0xA1,
            Opcode::AndD => 0xA2,
            Opcode::AndE => 0xA3,
            Opcode::AndH => 0xA4,
            Opcode::AndL => 0xA5,
            Opcode::AndA => 0xA7,
            Opcode::XorB => 0xA8,
            Opcode::XorC => 0xA9,
            Opcode::XorD => 0xAA,
            Opcode::XorE => 0xAB,
            Opcode::XorH => 0xAC,
            Opcode::XorL => 0xAD,
            Opcode::XorA => 0xAF,
            Opcode::OrB => 0xB0,
            Opcode::OrC => 0xB1,
            Opcode::OrD => 0xB2,
            Opcode::OrE => 0xB3,
            Opcode::OrH => 0xB4,
            Opcode::OrL => 0xB5,
            Opcode::OrA => 0xB7,
            Opcode::RetNZ => 0xC0,
            Opcode::PopBC => 0xC1,
            Opcode::JpNZXX => 0xC2,
            Opcode::JpXX => 0xC3,
            Opcode::CallNZXX => 0xC4,
            Opcode::PushBC => 0xC5,
            Opcode::RetZ => 0xC8,
            Opcode::Ret => 0xC9,
            Opcode::JpZXX => 0xCA,
            Opcode::CallZXX => 0xCC,
            Opcode::CallXX => 0xCD,
            Opcode::RetNC => 0xD0,
            Opcode::PopDE => 0xD1,
            Opcode::JpNCXX => 0xD2,
            Opcode::CallNCXX => 0xD4,
            Opcode::PushDE => 0xD5,
            Opcode::RetC => 0xD8,
            Opcode::Exx => 0xD9,
            Opcode::JpCXX => 0xDA,
            Opcode::CallCXX => 0xDC,
            Opcode::RetPO => 0xE0,
            Opcode::PopHL => 0xE1,
            Opcode::JpPOXX => 0xE2,
            Opcode::ExVSPHL => 0xE3,
            Opcode::CallPOXX => 0xE4,
            Opcode::PushHL => 0xE5,
            Opcode::AndX => 0xE6,
            Opcode::RetPE => 0xE8,
            Opcode::JpPEXX => 0xEA,
            Opcode::ExDEHL => 0xEB,
            Opcode::CallPEXX => 0xEC,
            Opcode::XorX => 0xEE,
            Opcode::RetP => 0xF0,
            Opcode::PopAF => 0xF1,
            Opcode::JpPXX => 0xF2,
            Opcode::CallPXX => 0xF4,
            Opcode::PushAF => 0xF5,
            Opcode::OrX => 0xF6,
            Opcode::RetM => 0xF8,
            Opcode::JpMXX => 0xFA,
            Opcode::CallMXX => 0xFC,
        }
    }

    /// Decodes a byte; `None` for a byte that no implemented instruction has.
    pub fn from_u8(byte: u8) -> (r: Option<Opcode>)
        ensures
            r == opcode_of(byte),
    {
        match byte {
            0x00 => Some(Opcode::Nop),
            0x01 => Some(Opcode::LdBCXX),
            0x02 => Some(Opcode::LdVBCA),
            0x03 => Some(Opcode::IncBC),
            0x04 => Some(Opcode::IncB),
            0x05 => Some(Opcode::DecB),
            0x06 => Some(Opcode::LdBX),
            0x07 => Some(Opcode::RLCA),
            0x08 => Some(Opcode::ExAFAF),
            0x09 => Some(Opcode::AddHLBC),
            0x0A => Some(Opcode::LdAVBC),
            0x0B => Some(Opcode::DecBC),
            0x0C => Some(Opcode::IncC),
            0x0D => Some(Opcode::DecC),
            0x0E => Some(Opcode::LdCX),
            0x11 => Some(Opcode::LdDEXX),
            0x12 => Some(Opcode::LdVDEA),
            0x13 => Some(Opcode::IncDE),
            0x14 => Some(Opcode::IncD),
            0x15 => Some(Opcode::DecD),
            0x16 => Some(Opcode::LdDX),
            0x19 => Some(Opcode::AddHLDE),
            0x1A => Some(Opcode::LdAVDE),
            0x1B => Some(Opcode::DecDE),
            0x1C => Some(Opcode::IncE),
            0x1D => Some(Opcode::DecE),
            0x1E => Some(Opcode::LdEX),
            0x21 => Some(Opcode::LdHLXX),
            0x22 => Some(Opcode::LdVXXHL),
            0x23 => Some(Opcode::IncHL),
            0x24 => Some(Opcode::IncH),
            0x25 => Some(Opcode::DecH),
            0x26 => Some(Opcode::LdHX),
            0x29 => Some(Opcode::AddHLHL),
            0x2A => Some(Opcode::LdHLVXX),
            0x2B => Some(Opcode::DecHL),
            0x2C => Some(Opcode::IncL),
            0x2D => Some(Opcode::DecL),
            0x2E => Some(Opcode::LdLX),
            0x2F => Some(Opcode::CPL),
            0x31 => Some(Opcode::LdSPXX),
            0x32 => Some(Opcode::LdVXXA),
            0x33 => Some(Opcode::IncSP),
            0x36 => Some(Opcode::LdVHLX),
            0x37 => Some(Opcode::SCF),
            0x39 => Some(Opcode::AddHLSP),
            0x3A => Some(Opcode::LdAVXX),
            0x3B => Some(Opcode::DecSP),
            0x3C => Some(Opcode::IncA),
            0x3D => Some(Opcode::DecA),
            0x3E => Some(Opcode::LdAX),
            0x3F => Some(Opcode::CCF),
            0x40 => Some(Opcode::LdBB),
            0x41 => Some(Opcode::LdBC),
            0x42 => Some(Opcode::LdBD),
            0x43 => Some(Opcode::LdBE),
            0x44 => Some(Opcode::LdBH),
            0x45 => Some(Opcode::LdBL),
            0x46 => Some(Opcode::LdBHL),
            0x47 => Some(Opcode::LdBA),
            0x48 => Some(Opcode::LdCB),
            0x49 => Some(Opcode::LdCC),
            0x4A => Some(Opcode::LdCD),
            0x4B => Some(Opcode::LdCE),
            0x4C => Some(Opcode::LdCH),
            0x4D => Some(Opcode::LdCL),
            0x4E => Some(Opcode::LdCHL),
            0x4F => Some(Opcode::LdCA),
            0x50 => Some(Opcode::LdDB),
            0x51 => Some(Opcode::LdDC),
            0x52 => Some(Opcode::LdDD),
            0x53 => Some(Opcode::LdDE),
            0x54 => Some(Opcode::LdDH),
            0x55 => Some(Opcode::LdDL),
            0x56 => Some(Opcode::LdDHL),
            0x57 => Some(Opcode::LdDA),
            0x58 => Some(Opcode::LdEB),
            0x59 => Some(Opcode::LdEC),
            0x5A => Some(Opcode::LdED),
            0x5B => Some(Opcode::LdEE),
            0x5C => Some(Opcode::LdEH),
            0x5D => Some(Opcode::LdEL),
            0x5E => Some(Opcode::LdEHL),
            0x5F => Some(Opcode::LdEA),
            0x60 => Some(Opcode::LdHB),
            0x61 => Some(Opcode::LdHC),
            0x62 => Some(Opcode::LdHD),
            0x63 => Some(Opcode::LdHE),
            0x64 => Some(Opcode::LdHH),
            0x65 => Some(Opcode::LdHL),
            0x66 => Some(Opcode::LdHHL),
            0x67 => Some(Opcode::LdHA),
            0x68 => Some(Opcode::LdLB),
            0x69 => Some(Opcode::LdLC),
            0x6A => Some(Opcode::LdLD),
            0x6B => Some(Opcode::LdLE),
            0x6C => Some(Opcode::LdLH),
            0x6D => Some(Opcode::LdLL),
            0x6E => Some(Opcode::LdLHL),
            0x6F => Some(Opcode::LdLA),
            0x70 => Some(Opcode::LdHLB),
            0x71 => Some(Opcode::LdHLC),
            0x72 => Some(Opcode::LdHLD),
            0x73 => Some(Opcode::LdHLE),
            0x74 => Some(Opcode::LdHLH),
            0x75 => Some(Opcode::LdHLL),
            0x76 => Some(Opcode::Halt),
            0x77 => Some(Opcode::LdHLA),
            0x78 => Some(Opcode::LdAB),
            0x79 => Some(Opcode::LdAC),
            0x7A => Some(Opcode::LdAD),
            0x7B => Some(Opcode::LdAE),
            0x7C => Some(Opcode::LdAH),
            0x7D => Some(Opcode::LdAL),
            0x7E => Some(Opcode::LdAHL),
            0x7F => Some(Opcode::LdAA),
            0x80 => Some(Opcode::AddB),
            0x81 => Some(Opcode::AddC),
            0x82 => Some(Opcode::AddD),
            0x83 => Some(Opcode::AddE),
            0x84 => Some(Opcode::AddH),
            0x85 => Some(Opcode::AddL),
            0x87 => Some(Opcode::AddA),
            0x88 => Some(Opcode::AdcB),
            0x89 => Some(Opcode::AdcC),
            0x8A => Some(Opcode::AdcD),
            0x8B => Some(Opcode::AdcE),
            0x8C => Some(Opcode::AdcH),
            0x8D => Some(Opcode::AdcL),
            0x8F => Some(Opcode::AdcA),
            0x90 => Some(Opcode::SubB),
            0x91 => Some(Opcode::SubC),
            0x92 => Some(Opcode::SubD),
            0x93 => Some(Opcode::SubE),
            0x94 => Some(Opcode::SubH),
            0x95 => Some(Opcode::SubL),
            0x97 => Some(Opcode::SubA),
            0x98 => Some(Opcode::SbcB),
            0x99 => Some(Opcode::SbcC),
            0x9A => Some(Opcode::SbcD),
            0x9B => Some(Opcode::SbcE),
            0x9C => Some(Opcode::SbcH),
            0x9D => Some(Opcode::SbcL),
            0x9F => Some(Opcode::SbcA),
            0xA0 => Some(Opcode::AndB),
            0xA1 => Some(Opcode::AndC),
            0xA2 => Some(Opcode::AndD),
            0xA3 => Some(Opcode::AndE),
            0xA4 => Some(Opcode::AndH),
            0xA5 => Some(Opcode::AndL),
            0xA7 => Some(Opcode::AndA),
            0xA8 => Some(Opcode::XorB),
            0xA9 => Some(Opcode::XorC),
            0xAA => Some(Opcode::XorD),
            0xAB => Some(Opcode::XorE),
            0xAC => Some(Opcode::XorH),
            0xAD => Some(Opcode::XorL),
            0xAF => Some(Opcode::XorA),
            0xB0 => Some(Opcode::OrB),
            0xB1 => Some(Opcode::OrC),
            0xB2 => Some(Opcode::OrD),
            0xB3 => Some(Opcode::OrE),
            0xB4 => Some(Opcode::OrH),
            0xB5 => Some(Opcode::OrL),
            0xB7 => Some(Opcode::OrA),
            0xC0 => Some(Opcode::RetNZ),
            0xC1 => Some(Opcode::PopBC),
            0xC2 => Some(Opcode::JpNZXX),
            0xC3 => Some(Opcode::JpXX),
            0xC4 => Some(Opcode::CallNZXX),
            0xC5 => Some(Opcode::PushBC),
            0xC8 => Some(Opcode::RetZ),
            0xC9 => Some(Opcode::Ret),
            0xCA => Some(Opcode::JpZXX),
            0xCC => Some(Opcode::CallZXX),
            0xCD => Some(Opcode::CallXX),
            0xD0 => Some(Opcode::RetNC),
            0xD1 => Some(Opcode::PopDE),
            0xD2 => Some(Opcode::JpNCXX),
            0xD4 => Some(Opcode::CallNCXX),
            0xD5 => Some(Opcode::PushDE),
            0xD8 => Some(Opcode::RetC),
            0xD9 => Some(Opcode::Exx),
            0xDA => Some(Opcode::JpCXX),
            0xDC => Some(Opcode::CallCXX),
            0xE0 => Some(Opcode::RetPO),
            0xE1 => Some(Opcode::PopHL),
            0xE2 => Some(Opcode::JpPOXX),
            0xE3 => Some(Opcode::ExVSPHL),
            0xE4 => Some(Opcode::CallPOXX),
            0xE5 => Some(Opcode::PushHL),
            0xE6 => Some(Opcode::AndX),
            0xE8 => Some(Opcode::RetPE),
            0xEA => Some(Opcode::JpPEXX),
            0xEB => Some(Opcode::ExDEHL),
            0xEC => Some(Opcode::CallPEXX),
            0xEE => Some(Opcode::XorX),
            0xF0 => Some(Opcode::RetP),
            0xF1 => Some(Opcode::PopAF),
            0xF2 => Some(Opcode::JpPXX),
            0xF4 => Some(Opcode::CallPXX),
            0xF5 => Some(Opcode::PushAF),
            0xF6 => Some(Opcode::OrX),
            0xF8 => Some(Opcode::RetM),
            0xFA => Some(Opcode::JpMXX),
            0xFC => Some(Opcode::CallMXX),
            _ => None,
        }
    }

    /// What this opcode does.
    pub fn instruction(self) -> (r: Instruction)
        ensures
            r == self.spec_instruction(),
    {
        match self {
            Opcode::Nop => Instruction::Nop,
            Opcode::LdBCXX => Instruction::LoadPairImmediate(RegisterPair::BC),
            Opcode::LdVBCA => Instruction::StoreToPointer(RegisterPair::BC, Register::A),
            Opcode::IncBC => Instruction::IncrementPair(RegisterPair::BC),
            Opcode::IncB => Instruction::Increment(Register::B),
            Opcode::DecB => Instruction::Decrement(Register::B),
            Opcode::LdBX => Instruction::LoadImmediate(Register::B),
            Opcode::RLCA => Instruction::RotateLeft,
            Opcode::ExAFAF => Instruction::ExchangeAf,
            Opcode::AddHLBC => Instruction::AddPairToHl(RegisterPair::BC),
            Opcode::LdAVBC => Instruction::LoadFromPointer(Register::A, RegisterPair::BC),
            Opcode::DecBC => Instruction::DecrementPair(RegisterPair::BC),
            Opcode::IncC => Instruction::Increment(Register::C),
            Opcode::DecC => Instruction::Decrement(Register::C),
            Opcode::LdCX => Instruction::LoadImmediate(Register::C),
            Opcode::LdDEXX => Instruction::LoadPairImmediate(RegisterPair::DE),
            Opcode::LdVDEA => Instruction::StoreToPointer(RegisterPair::DE, Register::A),
            Opcode::IncDE => Instruction::IncrementPair(RegisterPair::DE),
            Opcode::IncD => Instruction::Increment(Register::D),
            Opcode::DecD => Instruction::Decrement(Register::D),
            Opcode::LdDX => Instruction::LoadImmediate(Register::D),
            Opcode::AddHLDE => Instruction::AddPairToHl(RegisterPair::DE),
            Opcode::LdAVDE => Instruction::LoadFromPointer(Register::A, RegisterPair::DE),
            Opcode::DecDE => Instruction::DecrementPair(RegisterPair::DE),
            Opcode::IncE => Instruction::Increment(Register::E),
            Opcode::DecE => Instruction::Decrement(Register::E),
            Opcode::LdEX => Instruction::LoadImmediate(Register::E),
            Opcode::LdHLXX => Instruction::LoadPairImmediate(RegisterPair::HL),
            Opcode::LdVXXHL => Instruction::StorePairAbsolute(RegisterPair::HL),
            Opcode::IncHL => Instruction::IncrementPair(RegisterPair::HL),
            Opcode::IncH => Instruction::Increment(Register::H),
            Opcode::DecH => Instruction::Decrement(Register::H),
            Opcode::LdHX => Instruction::LoadImmediate(Register::H),
            Opcode::AddHLHL => Instruction::AddPairToHl(RegisterPair::HL),
            Opcode::LdHLVXX => Instruction::LoadPairAbsolute(RegisterPair::HL),
            Opcode::DecHL => Instruction::DecrementPair(RegisterPair::HL),
            Opcode::IncL => Instruction::Increment(Register::L),
            Opcode::DecL => Instruction::Decrement(Register::L),
            Opcode::LdLX => Instruction::LoadImmediate(Register::L),
            Opcode::CPL => Instruction::Complement,
            Opcode::LdSPXX => Instruction::LoadPairImmediate(RegisterPair::SP),
            Opcode::LdVXXA => Instruction::StoreAbsolute(Register::A),
            Opcode::IncSP => Instruction::IncrementPair(RegisterPair::SP),
            Opcode::LdVHLX => Instruction::StoreImmediateToPointer(RegisterPair::HL),
            Opcode::SCF => Instruction::SetCarry,
            Opcode::AddHLSP => Instruction::AddPairToHl(RegisterPair::SP),
            Opcode::LdAVXX => Instruction::LoadAbsolute(Register::A),
            Opcode::DecSP => Instruction::DecrementPair(RegisterPair::SP),
            Opcode::IncA => Instruction::Increment(Register::A),
            Opcode::DecA => Instruction::Decrement(Register::A),
            Opcode::LdAX => Instruction::LoadImmediate(Register::A),
            Opcode::CCF => Instruction::ComplementCarry,
            Opcode::LdBB => Instruction::Move(Register::B, Register::B),
            Opcode::LdBC => Instruction::Move(Register::B, Register::C),
            Opcode::LdBD => Instruction::Move(Register::B, Register::D),
            Opcode::LdBE => Instruction::Move(Register::B, Register::E),
            Opcode::LdBH => Instruction::Move(Register::B, Register::H),
            Opcode::LdBL => Instruction::Move(Register::B, Register::L),
            Opcode::LdBHL => Instruction::LoadFromPointer(Register::B, RegisterPair::HL),
            Opcode::LdBA => Instruction::Move(Register::B, Register::A),
            Opcode::LdCB => Instruction::Move(Register::C, Register::B),
            Opcode::LdCC => Instruction::Move(Register::C, Register::C),
            Opcode::LdCD => Instruction::Move(Register::C, Register::D),
            Opcode::LdCE => Instruction::Move(Register::C, Register::E),
            Opcode::LdCH => Instruction::Move(Register::C, Register::H),
            Opcode::LdCL => Instruction::Move(Register::C, Register::L),
            Opcode::LdCHL => Instruction::LoadFromPointer(Register::C, RegisterPair::HL),
            Opcode::LdCA => Instruction::Move(Register::C, Register::A),
            Opcode::LdDB => Instruction::Move(Register::D, Register::B),
            Opcode::LdDC => Instruction::Move(Register::D, Register::C),
            Opcode::LdDD => Instruction::Move(Register::D, Register::D),
            Opcode::LdDE => Instruction::Move(Register::D, Register::E),
            Opcode::LdDH => Instruction::Move(Register::D, Register::H),
            Opcode::LdDL => Instruction::Move(Register::D, Register::L),
            Opcode::LdDHL => Instruction::LoadFromPointer(Register::D, RegisterPair::HL),
            Opcode::LdDA => Instruction::Move(Register::D, Register::A),
            Opcode::LdEB => Instruction::Move(Register::E, Register::B),
            Opcode::LdEC => Instruction::Move(Register::E, Register::C),
            Opcode::LdED => Instruction::Move(Register::E, Register::D),
            Opcode::LdEE => Instruction::Move(Register::E, Register::E),
            Opcode::LdEH => Instruction::Move(Register::E, Register::H),
            Opcode::LdEL => Instruction::Move(Register::E, Register::L),
            Opcode::LdEHL => Instruction::LoadFromPointer(Register::E, RegisterPair::HL),
            Opcode::LdEA => Instruction::Move(Register::E, Register::A),
            Opcode::LdHB => Instruction::Move(Register::H, Register::B),
            Opcode::LdHC => Instruction::Move(Register::H, Register::C),
            Opcode::LdHD => Instruction::Move(Register::H, Register::D),
            Opcode::LdHE => Instruction::Move(Register::H, Register::E),
            Opcode::LdHH => Instruction::Move(Register::H, Register::H),
            Opcode::LdHL => Instruction::Move(Register::H, Register::L),
            Opcode::LdHHL => Instruction::LoadFromPointer(Register::H, RegisterPair::HL),
            Opcode::LdHA => Instruction::Move(Register::H, Register::A),
            Opcode::LdLB => Instruction::Move(Register::L, Register::B),
            Opcode::LdLC => Instruction::Move(Register::L, Register::C),
            Opcode::LdLD => Instruction::Move(Register::L, Register::D),
            Opcode::LdLE => Instruction::Move(Register::L, Register::E),
            Opcode::LdLH => Instruction::Move(Register::L, Register::H),
            Opcode::LdLL => Instruction::Move(Register::L, Register::L),
            Opcode::LdLHL => Instruction::LoadFromPointer(Register::L, RegisterPair::HL),
            Opcode::LdLA => Instruction::Move(Register::L, Register::A),
            Opcode::LdHLB => Instruction::StoreToPointer(RegisterPair::HL, Register::B),
            Opcode::LdHLC => Instruction::StoreToPointer(RegisterPair::HL, Register::C),
            Opcode::LdHLD => Instruction::StoreToPointer(RegisterPair::HL, Register::D),
            Opcode::LdHLE => Instruction::StoreToPointer(RegisterPair::HL, Register::E),
            Opcode::LdHLH => Instruction::StoreToPointer(RegisterPair::HL, Register::H),
            Opcode::LdHLL => Instruction::StoreToPointer(RegisterPair::HL, Register::L),
            Opcode::Halt => Instruction::Halt,
            Opcode::LdHLA => Instruction::StoreToPointer(RegisterPair::HL, Register::A),
            Opcode::LdAB => Instruction::Move(Register::A, Register::B),
            Opcode::LdAC => Instruction::Move(Register::A, Register::C),
            Opcode::LdAD => Instruction::Move(Register::A, Register::D),
            Opcode::LdAE => Instruction::Move(Register::A, Register::E),
            Opcode::LdAH => Instruction::Move(Register::A, Register::H),
            Opcode::LdAL => Instruction::Move(Register::A, Register::L),
            Opcode::LdAHL => Instruction::LoadFromPointer(Register::A, RegisterPair::HL),
            Opcode::LdAA => Instruction::Move(Register::A, Register::A),
            Opcode::AddB => Instruction::Add(Register::B),
            Opcode::AddC => Instruction::Add(Register::C),
            Opcode::AddD => Instruction::Add(Register::D),
            Opcode::AddE => Instruction::Add(Register::E),
            Opcode::AddH => Instruction::Add(Register::H),
            Opcode::AddL => Instruction::Add(Register::L),
            Opcode::AddA => Instruction::Add(Register::A),
            Opcode::AdcB => Instruction::AddCarry(Register::B),
            Opcode::AdcC => Instruction::AddCarry(Register::C),
            Opcode::AdcD => Instruction::AddCarry(Register::D),
            Opcode::AdcE => Instruction::AddCarry(Register::E),
            Opcode::AdcH => Instruction::AddCarry(Register::H),
            Opcode::AdcL => Instruction::AddCarry(Register::L),
            Opcode::AdcA => Instruction::AddCarry(Register::A),
            Opcode::SubB => Instruction::Subtract(Register::B),
            Opcode::SubC => Instruction::Subtract(Register::C),
            Opcode::SubD => Instruction::Subtract(Register::D),
            Opcode::SubE => Instruction::Subtract(Register::E),
            Opcode::SubH => Instruction::Subtract(Register::H),
            Opcode::SubL => Instruction::Subtract(Register::L),
            Opcode::SubA => Instruction::Subtract(Register::A),
            Opcode::SbcB => Instruction::SubtractCarry(Register::B),
            Opcode::SbcC => Instruction::SubtractCarry(Register::C),
            Opcode::SbcD => Instruction::SubtractCarry(Register::D),
            Opcode::SbcE => Instruction::SubtractCarry(Register::E),
            Opcode::SbcH => Instruction::SubtractCarry(Register::H),
            Opcode::SbcL => Instruction::SubtractCarry(Register::L),
            Opcode::SbcA => Instruction::SubtractCarry(Register::A),
            Opcode::AndB => Instruction::Bitwise(LogicOp::And, Register::B),
            Opcode::AndC => Instruction::Bitwise(LogicOp::And, Register::C),
            Opcode::AndD => Instruction::Bitwise(LogicOp::And, Register::D),
            Opcode::AndE => Instruction::Bitwise(LogicOp::And, Register::E),
            Opcode::AndH => Instruction::Bitwise(LogicOp::And, Register::H),
            Opcode::AndL => Instruction::Bitwise(LogicOp::And, Register::L),
            Opcode::AndA => Instruction::Bitwise(LogicOp::And, Register::A),
            Opcode::XorB => Instruction::Bitwise(LogicOp::Xor, Register::B),
            Opcode::XorC => Instruction::Bitwise(LogicOp::Xor, Register::C),
            Opcode::XorD => Instruction::Bitwise(LogicOp::Xor, Register::D),
            Opcode::XorE => Instruction::Bitwise(LogicOp::Xor, Register::E),
            Opcode::XorH => Instruction::Bitwise(LogicOp::Xor, Register::H),
            Opcode::XorL => Instruction::Bitwise(LogicOp::Xor, Register::L),
            Opcode::XorA => Instruction::Bitwise(LogicOp::Xor, Register::A),
            Opcode::OrB => Instruction::Bitwise(LogicOp::Or, Register::B),
            Opcode::OrC => Instruction::Bitwise(LogicOp::Or, Register::C),
            Opcode::OrD => Instruction::Bitwise(LogicOp::Or, Register::D),
            Opcode::OrE => Instruction::Bitwise(LogicOp::Or, Register::E),
            Opcode::OrH => Instruction::Bitwise(LogicOp::Or, Register::H),
            Opcode::OrL => Instruction::Bitwise(LogicOp::Or, Register::L),
            Opcode::OrA => Instruction::Bitwise(LogicOp::Or, Register::A),
            Opcode::RetNZ => Instruction::ReturnIf(Condition::NonZero),
            Opcode::PopBC => Instruction::Pop(RegisterPair::BC),
            Opcode::JpNZXX => Instruction::Jump(Condition::NonZero),
            Opcode::JpXX => Instruction::Jump(Condition::Always),
            Opcode::CallNZXX => Instruction::Call(Condition::NonZero),
            Opcode::PushBC => Instruction::Push(RegisterPair::BC),
            Opcode::RetZ => Instruction::ReturnIf(Condition::Zero),
            Opcode::Ret => Instruction::Return,
            Opcode::JpZXX => Instruction::Jump(Condition::Zero),
            Opcode::CallZXX => Instruction::Call(Condition::Zero),
            Opcode::CallXX => Instruction::Call(Condition::Always),
            Opcode::RetNC => Instruction::ReturnIf(Condition::NoCarry),
            Opcode::PopDE => Instruction::Pop(RegisterPair::DE),
            Opcode::JpNCXX => Instruction::Jump(Condition::NoCarry),
            Opcode::CallNCXX => Instruction::Call(Condition::NoCarry),
            Opcode::PushDE => Instruction::Push(RegisterPair::DE),
            Opcode::RetC => Instruction::ReturnIf(Condition::Carry),
            Opcode::Exx => Instruction::ExchangeShadow,
            Opcode::JpCXX => Instruction::Jump(Condition::Carry),
            Opcode::CallCXX => Instruction::Call(Condition::Carry),
            Opcode::RetPO => Instruction::ReturnIf(Condition::ParityOdd),
            Opcode::PopHL => Instruction::Pop(RegisterPair::HL),
            Opcode::JpPOXX => Instruction::Jump(Condition::ParityOdd),
            Opcode::ExVSPHL => Instruction::ExchangeStackHl,
            Opcode::CallPOXX => Instruction::Call(Condition::ParityOdd),
            Opcode::PushHL => Instruction::Push(RegisterPair::HL),
            Opcode::AndX => Instruction::BitwiseValue(LogicOp::And),
            Opcode::RetPE => Instruction::ReturnIf(Condition::ParityEven),
            Opcode::JpPEXX => Instruction::Jump(Condition::ParityEven),
            Opcode::ExDEHL => Instruction::ExchangeDeHl,
            Opcode::CallPEXX => Instruction::Call(Condition::ParityEven),
            Opcode::XorX => Instruction::BitwiseValue(LogicOp::Xor),
            Opcode::RetP => Instruction::ReturnIf(Condition::Positive),
            Opcode::PopAF => Instruction::Pop(RegisterPair::AF),
            Opcode::JpPXX => Instruction::Jump(Condition::Positive),
            Opcode::CallPXX => Instruction::Call(Condition::Positive),
            Opcode::PushAF => Instruction::Push(RegisterPair::AF),
            Opcode::OrX => Instruction::BitwiseValue(LogicOp::Or),
            Opcode::RetM => Instruction::ReturnIf(Condition::Negative),
            Opcode::JpMXX => Instruction::Jump(Condition::Negative),
            Opcode::CallMXX => Instruction::Call(Condition::Negative),
        }
    }
}

/// Decoding the byte of an opcode gives that opcode back, so no two opcodes
/// share a byte.
pub proof fn lemma_decode_encoding(op: Opcode)
    ensures
        opcode_of(op.byte()) == Some(op),
{
}

} // verus!
