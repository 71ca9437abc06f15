use vstd::prelude::*;

verus! {

/// A four-bit quantity, the unit in which the byte adder propagates carries.
#[derive(Clone, Copy)]
pub struct Nibble {
    value: u8,
}

impl View for Nibble {
    type V = nat;

    closed spec fn view(&self) -> nat {
        self.value as nat
    }
}

impl Nibble {
    #[verifier::type_invariant]
    spec fn fits(self) -> bool {
        self.value < 16
    }

    /// The low four bits of `value`.
    pub fn from_u8(value: u8) -> (r: Nibble)
        ensures
            r@ == value % 16,
    {
        assert(value & 0x0F == value % 16) by (bit_vector);
        Nibble { value: value & 0x0F }
    }

    /// The high four bits of `value`.
    pub fn from_u8_high(value: u8) -> (r: Nibble)
        ensures
            r@ == value / 16,
    {
        assert((value & 0xF0) >> 4 == value / 16) by (bit_vector);
        Nibble::from_u8((value & 0xF0) >> 4)
    }

    /// The byte whose high four bits are `high` and low four bits are `low`.
    pub fn u8_from_nibbles(high: Nibble, low: Nibble) -> (r: u8)
        ensures
            r == high@ * 16 + low@,
    {
        proof {
            use_type_invariant(&high);
            use_type_invariant(&low);
        }
        let h = high.value;
        let l = low.value;
        assert((h << 4) | l == h * 16 + l) by (bit_vector)
            requires
                h < 16,
                l < 16,
        ;
        (h << 4) | l
    }

    /// The four-bit sum of two nibbles, with whether it overflowed four bits.
    pub fn overflowing_add(self, rhs: Nibble) -> (r: (Nibble, bool))
        ensures
            r.0@ == (self@ + rhs@) % 16,
            r.1 == (self@ + rhs@ > 15),
    {
        proof {
            use_type_invariant(&self);
            use_type_invariant(&rhs);
        }
        let ext_result = self.value + rhs.value;
        let result = Nibble::from_u8(ext_result);
        let overflow = Nibble::from_u8_high(ext_result).value != 0;
        (result, overflow)
    }
}

} // verus!
