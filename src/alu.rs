use vstd::prelude::*;
use crate::nibble::Nibble;

verus! {

/// What the adder reports for one addition.
pub struct AdderResult<T> {
    pub value: T,
    pub half_carry: bool,
    pub carry: bool,
    pub overflow: bool,
}

/// The 16-bit value whose high byte is `high` and low byte is `low`.
pub open spec fn word_of(high: u8, low: u8) -> int {
    high * 256 + low
}

pub open spec fn high_byte(value: u16) -> u8 {
    (value / 256) as u8
}

pub open spec fn low_byte(value: u16) -> u8 {
    (value % 256) as u8
}

/// Two's-complement overflow: both operands have the same sign and the
/// result has the other one.
pub open spec fn signed_overflow(a_negative: bool, b_negative: bool, r_negative: bool) -> bool {
    a_negative == b_negative && r_negative != a_negative
}

/// The sum of two bytes with its flags.
pub open spec fn octet_sum(a: u8, b: u8) -> AdderResult<u8> {
    let value = ((a + b) % 256) as u8;
    AdderResult {
        value,
        half_carry: a % 16 + b % 16 > 15,
        carry: a + b > 255,
        overflow: signed_overflow(a >= 0x80, b >= 0x80, value >= 0x80),
    }
}

/// The sum of two words with its flags; the half-carry is the carry out of
/// the low nibble of the high byte.
pub open spec fn word_sum(a: u16, b: u16) -> AdderResult<u16> {
    let value = ((a + b) % 65536) as u16;
    AdderResult {
        value,
        half_carry: a % 4096 + b % 4096 > 4095,
        carry: a + b > 65535,
        overflow: signed_overflow(a >= 0x8000, b >= 0x8000, value >= 0x8000),
    }
}

/// The sum of two bytes and a carry-in bit, with its flags; the carries are
/// those of the full three-way sum.
pub open spec fn octet_sum_with_carry(a: u8, b: u8, carry: bool) -> AdderResult<u8> {
    let c: int = if carry { 1 } else { 0 };
    let value = ((a + b + c) % 256) as u8;
    AdderResult {
        value,
        half_carry: a % 16 + b % 16 + c > 15,
        carry: a + b + c > 255,
        overflow: signed_overflow(a >= 0x80, b >= 0x80, value >= 0x80),
    }
}

/// The two's-complement negation of `value` plus the carry bit, taken as one
/// nine-bit subtrahend.
pub open spec fn negated_with_carry(value: u8, carry: bool) -> u8 {
    ((256 - value - (if carry { 1int } else { 0 })) % 256) as u8
}

/// Two's-complement negation of a byte.
pub open spec fn negated(value: u8) -> u8 {
    ((256 - value) % 256) as u8
}

/// Two's-complement negation of a word.
pub open spec fn negated_word(value: u16) -> u16 {
    ((65536 - value) % 65536) as u16
}

proof fn lemma_word_halves(w: u16, high: u8, low: u8)
    requires
        w == word_of(high, low),
    ensures
        w % 4096 == (high % 16) * 256 + low,
        w % 256 == low,
{
    assert(w % 256 == low) by (bit_vector)
        requires
            w == high * 256 + low,
    ;
    assert(w % 4096 == (high % 16) * 256 + low) by (bit_vector)
        requires
            w == high * 256 + low,
    ;
}

proof fn lemma_nibble_carries(
    a: u8,
    b: u8,
    low: nat,
    half_carry: bool,
    high_temp: nat,
    carry_1: bool,
    high: nat,
    carry_2: bool,
)
    requires
        low == (a % 16 + b % 16) % 16,
        half_carry == (a % 16 + b % 16 > 15),
        high_temp == (a / 16 + b / 16) % 16,
        carry_1 == (a / 16 + b / 16 > 15),
        high == (high_temp + get_bit_spec(half_carry) % 16) % 16,
        carry_2 == (high_temp + get_bit_spec(half_carry) % 16 > 15),
    ensures
        high * 16 + low == (a + b) % 256,
        (carry_1 || carry_2) == (a + b > 255),
{
    let hc: int = if half_carry { 1 } else { 0 };
    assert(a == (a / 16) * 16 + a % 16);
    assert(b == (b / 16) * 16 + b % 16);
    assert(a % 16 + b % 16 == low + 16 * hc);
    let c: int = if carry_1 || carry_2 { 1 } else { 0 };
    assert(a / 16 + b / 16 + hc == high + 16 * c);
    assert(a + b == (high * 16 + low) + 256 * c);
}

proof fn lemma_octet_carry(x: u8, y: u8)
    ensures
        x + y == octet_sum(x, y).value + (if octet_sum(x, y).carry { 256int } else { 0 }),
        octet_sum(x, y).half_carry == (x % 16 + y % 16 > 15),
{
}

pub open spec fn get_bit_spec(value: bool) -> u8 {
    if value { 1 } else { 0 }
}

proof fn lemma_word_carries(
    a: u16,
    b: u16,
    a_high: u8,
    b_high: u8,
    low: u8,
    low_carry: bool,
    high: u8,
    carry: bool,
    half_carry: bool,
)
    requires
        a + b == (a_high + b_high) * 256 + low + (if low_carry { 256int } else { 0 }),
        a_high + b_high + (if low_carry { 1int } else { 0 }) == high + (if carry {
            256int
        } else {
            0
        }),
        a % 4096 + b % 4096 == (a_high % 16 + b_high % 16) * 256 + low + (if low_carry {
            256int
        } else {
            0
        }),
        half_carry == (a_high % 16 + b_high % 16 + (if low_carry { 1int } else { 0 }) > 15),
    ensures
        word_of(high, low) == (a + b) % 65536,
        carry == (a + b > 65535),
        half_carry == (a % 4096 + b % 4096 > 4095),
{
    let lc: int = if low_carry { 1 } else { 0 };
    let hc: int = if carry { 1 } else { 0 };
    assert(a + b == word_of(high, low) + 65536 * hc);
}

/// Splits a word into its high and low bytes.
pub fn get_octets(value: u16) -> (r: (u8, u8))
    ensures
        r.0 == high_byte(value),
        r.1 == low_byte(value),
        word_of(r.0, r.1) == value,
{
    assert((value & 0xFF00) >> 8 == value / 256) by (bit_vector);
    assert(value & 0xFF == value % 256) by (bit_vector);
    let high = ((value & 0xFF00) >> 8) as u8;
    let low = (value & 0xFF) as u8;
    (high, low)
}

/// Joins a high and a low byte into a word.
pub fn get_word(high: u8, low: u8) -> (r: u16)
    ensures
        r == word_of(high, low),
{
    assert(((high as u16) << 8) | (low as u16) == high * 256 + low) by (bit_vector);
    ((high as u16) << 8) | low as u16
}

/// Joins a (high, low) pair of bytes into a word.
pub fn get_word_from_tuple(value: (u8, u8)) -> (r: u16)
    ensures
        r == word_of(value.0, value.1),
{
    get_word(value.0, value.1)
}

/// One for true, zero for false.
pub fn get_bit(value: bool) -> (r: u8)
    ensures
        r == get_bit_spec(value),
{
    if value {
        1
    } else {
        0
    }
}

/// Two's-complement negation of a byte: its complement plus one.
pub fn negate(value: u8) -> (r: u8)
    ensures
        r == negated(value),
{
    assert((!value) as int == 255 - value) by (bit_vector);
    (!value).wrapping_add(1)
}

/// Two's-complement negation of a word: its complement plus one.
pub fn negate_word(value: u16) -> (r: u16)
    ensures
        r == negated_word(value),
{
    assert((!value) as int == 65535 - value) by (bit_vector);
    (!value).wrapping_add(1)
}

/// Negates `value + carry` as one subtrahend: its complement when the carry
/// is set, its negation otherwise.
pub fn negate_with_carry(value: u8, carry: bool) -> (r: u8)
    ensures
        r == negated_with_carry(value, carry),
{
    if carry {
        assert((!value) as int == 255 - value) by (bit_vector);
        !value
    } else {
        negate(value)
    }
}

/// Adds two bytes and a carry-in bit: the bytes first, then the carry, the
/// carries and half-carries of the two additions combined.
pub fn add_octets_with_carry(a: u8, b: u8, carry: bool) -> (r: AdderResult<u8>)
    ensures
        r == octet_sum_with_carry(a, b, carry),
{
    let first = add_octets(a, b);
    let second = add_octets(first.value, get_bit(carry));
    let value = second.value;
    proof {
        let c: int = if carry { 1 } else { 0 };
        let c1: int = if first.carry { 1 } else { 0 };
        assert(a + b == first.value + 256 * c1);
        assert(a % 16 + b % 16 + c > 15 <==> first.half_carry || second.half_carry) by {
            assert(a + b == first.value + 256 * c1);
            assert(first.value % 16 == (a % 16 + b % 16) % 16);
        }
    }
    let overflow = if a < 0x80 && b < 0x80 {
        value > 0x7F
    } else if a > 0x7F && b > 0x7F {
        value < 0x80
    } else {
        false
    };
    AdderResult {
        value,
        half_carry: first.half_carry || second.half_carry,
        carry: first.carry || second.carry,
        overflow,
    }
}

/// Adds two bytes nibble by nibble, reporting the half-carry, the carry and
/// the signed overflow.
pub fn add_octets(a: u8, b: u8) -> (r: AdderResult<u8>)
    ensures
        r == octet_sum(a, b),
{
    let (low_nibble, half_carry) = Nibble::from_u8(a).overflowing_add(Nibble::from_u8(b));
    let (high_nibble_temp, carry_temp_1) = Nibble::from_u8_high(a).overflowing_add(
        Nibble::from_u8_high(b),
    );
    let (high_nibble, carry_temp_2) = high_nibble_temp.overflowing_add(
        Nibble::from_u8(get_bit(half_carry)),
    );
    let carry = carry_temp_1 || carry_temp_2;
    let result = Nibble::u8_from_nibbles(high_nibble, low_nibble);
    proof {
        lemma_nibble_carries(
            a,
            b,
            low_nibble@,
            half_carry,
            high_nibble_temp@,
            carry_temp_1,
            high_nibble@,
            carry_temp_2,
        );
    }
    let overflow = if a < 0x80 && b < 0x80 {
        result > 0x7F
    } else if a > 0x7F && b > 0x7F {
        result < 0x80
    } else {
        false
    };
    AdderResult { value: result, half_carry: half_carry, carry: carry, overflow: overflow }
}

/// Adds two words a byte at a time, the low byte's carry entering the high
/// byte's sum.
pub fn add_words(a: u16, b: u16) -> (r: AdderResult<u16>)
    ensures
        r == word_sum(a, b),
{
    let (a_high, a_low) = get_octets(a);
    let (b_high, b_low) = get_octets(b);
    let low = add_octets(a_low, b_low);
    let high_temp = add_octets(a_high, b_high);
    let high_carried = add_octets(high_temp.value, get_bit(low.carry));
    let half_carry = high_temp.half_carry || high_carried.half_carry;
    let carry = high_temp.carry || high_carried.carry;
    let result = get_word(high_carried.value, low.value);
    proof {
        lemma_octet_carry(a_low, b_low);
        lemma_octet_carry(a_high, b_high);
        lemma_octet_carry(high_temp.value, get_bit_spec(low.carry));
        lemma_word_halves(a, a_high, a_low);
        lemma_word_halves(b, b_high, b_low);
        lemma_word_carries(
            a,
            b,
            a_high,
            b_high,
            low.value,
            low.carry,
            high_carried.value,
            carry,
            half_carry,
        );
    }
    let overflow = if a < 0x8000 && b < 0x8000 {
        result > 0x7FFF
    } else if a > 0x7FFF && b > 0x7FFF {
        result < 0x8000
    } else {
        false
    };
    AdderResult { value: result, half_carry: half_carry, carry: carry, overflow: overflow }
}

} // verus!
