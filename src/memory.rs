use vstd::prelude::*;
use crate::alu::{get_octets, get_word, high_byte, low_byte, word_of};

verus! {

/// The number of addressable bytes.
pub const MEMORY_SIZE: usize = 65536;

/// A flat store of 65536 bytes.
pub struct Memory {
    data: [u8; 65536],
}

impl View for Memory {
    type V = Seq<u8>;

    closed spec fn view(&self) -> Seq<u8> {
        self.data@
    }
}

/// The address after `address`, wrapping at the top of the address space.
pub open spec fn next_address(address: u16) -> u16 {
    ((address + 1) % 65536) as u16
}

/// The word stored at `address`: low byte there, high byte at the next address.
pub open spec fn word_at(mem: Seq<u8>, address: u16) -> u16 {
    word_of(mem[next_address(address) as int], mem[address as int]) as u16
}

/// `mem` with the word `value` written at `address`, low byte first.
pub open spec fn with_word_at(mem: Seq<u8>, address: u16, value: u16) -> Seq<u8> {
    mem.update(address as int, low_byte(value)).update(
        next_address(address) as int,
        high_byte(value),
    )
}

impl Memory {
    /// Every store holds exactly 65536 bytes.
    pub broadcast proof fn lemma_size(m: &Memory)
        ensures
            #[trigger] m@.len() == 65536,
    {
    }

    /// A memory of zeros.
    pub fn new() -> (r: Memory)
        ensures
            r@ == Seq::new(65536, |i: int| 0u8),
    {
        let r = Memory { data: [0; 65536] };
        assert(r@ =~= Seq::new(65536, |i: int| 0u8));
        r
    }

    pub fn read_u8(&self, address: u16) -> (r: u8)
        ensures
            r == self@[address as int],
    {
        self.data[address as usize]
    }

    /// Reads the word at `address`, low byte first.
    pub fn read_u16(&self, address: u16) -> (r: u16)
        ensures
            r == word_at(self@, address),
    {
        let low = self.read_u8(address);
        let high = self.read_u8(address.wrapping_add(1));
        get_word(high, low)
    }

    pub fn write_u8(&mut self, address: u16, value: u8)
        ensures
            final(self)@ == old(self)@.update(address as int, value),
    {
        self.data[address as usize] = value;
    }

    /// Writes the word `value` at `address`, low byte first.
    pub fn write_u16(&mut self, address: u16, value: u16)
        ensures
            final(self)@ == with_word_at(old(self)@, address, value),
    {
        let (high, low) = get_octets(value);
        self.write_u8(address, low);
        self.write_u8(address.wrapping_add(1), high);
    }
}

} // verus!
