use vstd::prelude::*;

verus! {

/// The named bits of the status byte.
#[derive(Clone, Copy, PartialEq, Eq, Debug, Structural)]
pub enum Flag {
    Carry,
    AddSubtract,
    ParityOverflow,
    Unused1,
    HalfCarry,
    Unused2,
    Zero,
    Sign,
}

/// Whether `flag` is set in `status`.
pub open spec fn flag_bit(status: u8, flag: Flag) -> bool {
    status & flag.spec_mask() != 0
}

/// `status` with `flag` set to `value` and every other bit kept.
pub open spec fn with_flag(status: u8, flag: Flag, value: bool) -> u8 {
    if value {
        status | flag.spec_mask()
    } else {
        status & !flag.spec_mask()
    }
}

/// The value that `values` gives to `flag`; a later pair overrides an
/// earlier one.
pub open spec fn flag_value(values: Seq<(Flag, bool)>, flag: Flag) -> Option<bool>
    decreases values.len(),
{
    if values.len() == 0 {
        None
    } else if values.last().0 == flag {
        Some(values.last().1)
    } else {
        flag_value(values.drop_last(), flag)
    }
}

/// `status` after each flag of `affected`, in order, takes the value that
/// `values` gives it; a flag that `values` does not name is kept.
pub open spec fn apply_flags(status: u8, affected: Seq<Flag>, values: Seq<(Flag, bool)>) -> u8
    decreases affected.len(),
{
    if affected.len() == 0 {
        status
    } else {
        let before = apply_flags(status, affected.drop_last(), values);
        match flag_value(values, affected.last()) {
            Some(v) => with_flag(before, affected.last(), v),
            None => before,
        }
    }
}

proof fn lemma_single_bits(status: u8, m: u8, n: u8)
    requires
        m == 1 || m == 2 || m == 4 || m == 8 || m == 16 || m == 32 || m == 64 || m == 128,
        n == 1 || n == 2 || n == 4 || n == 8 || n == 16 || n == 32 || n == 64 || n == 128,
    ensures
        (status | m) & m != 0,
        (status & !m) & m == 0,
        m != n ==> (((status | m) & n != 0) == (status & n != 0)),
        m != n ==> (((status & !m) & n != 0) == (status & n != 0)),
{
    assert((status | m) & m != 0) by (bit_vector)
        requires
            m != 0,
    ;
    assert((status & !m) & m == 0) by (bit_vector);
    assert(m != n ==> (((status | m) & n != 0) == (status & n != 0))) by (bit_vector)
        requires
            m == 1 || m == 2 || m == 4 || m == 8 || m == 16 || m == 32 || m == 64 || m == 128,
            n == 1 || n == 2 || n == 4 || n == 8 || n == 16 || n == 32 || n == 64 || n == 128,
    ;
    assert(m != n ==> (((status & !m) & n != 0) == (status & n != 0))) by (bit_vector)
        requires
            m == 1 || m == 2 || m == 4 || m == 8 || m == 16 || m == 32 || m == 64 || m == 128,
            n == 1 || n == 2 || n == 4 || n == 8 || n == 16 || n == 32 || n == 64 || n == 128,
    ;
}

/// Setting one flag gives it the new value and leaves every other flag as it was.
pub proof fn lemma_with_flag(status: u8, flag: Flag, value: bool, other: Flag)
    ensures
        flag_bit(with_flag(status, flag, value), other) == if other == flag {
            value
        } else {
            flag_bit(status, other)
        },
{
    lemma_single_bits(status, flag.spec_mask(), other.spec_mask());
}

/// A flag outside the affected set keeps its value; an affected flag that
/// `values` names takes that value.
pub proof fn lemma_apply_flags(
    status: u8,
    affected: Seq<Flag>,
    values: Seq<(Flag, bool)>,
    flag: Flag,
)
    ensures
        flag_bit(apply_flags(status, affected, values), flag) == if affected.contains(flag)
            && flag_value(values, flag) is Some {
            flag_value(values, flag)->0
        } else {
            flag_bit(status, flag)
        },
    decreases affected.len(),
{
    if affected.len() > 0 {
        let rest = affected.drop_last();
        lemma_apply_flags(status, rest, values, flag);
        let before = apply_flags(status, rest, values);
        if let Some(v) = flag_value(values, affected.last()) {
            lemma_with_flag(before, affected.last(), v, flag);
        }
        assert(affected =~= rest.push(affected.last()));
        assert(affected.contains(flag) <==> rest.contains(flag) || affected.last() == flag) by {
            if affected.contains(flag) {
                let i = choose|i: int| 0 <= i < affected.len() && affected[i] == flag;
                if i < rest.len() {
                    assert(rest[i] == flag);
                }
            }
            if rest.contains(flag) {
                let i = choose|i: int| 0 <= i < rest.len() && rest[i] == flag;
                assert(affected[i] == flag);
            }
            if affected.last() == flag {
                assert(affected[affected.len() - 1] == flag);
            }
        }
    }
}

impl Flag {
    pub open spec fn spec_mask(self) -> u8 {
        match self {
            Flag::Carry => 1,
            Flag::AddSubtract => 2,
            Flag::ParityOverflow => 4,
            Flag::Unused1 => 8,
            Flag::HalfCarry => 16,
            Flag::Unused2 => 32,
            Flag::Zero => 64,
            Flag::Sign => 128,
        }
    }

    /// The bit of the status byte that this flag occupies.
    pub fn mask(self) -> (r: u8)
        ensures
            r == self.spec_mask(),
    {
        match self {
            Flag::Carry => 1,
            Flag::AddSubtract => 2,
            Flag::ParityOverflow => 4,
            Flag::Unused1 => 8,
            Flag::HalfCarry => 16,
            Flag::Unused2 => 32,
            Flag::Zero => 64,
            Flag::Sign => 128,
        }
    }

    /// Sets this flag in `register` to `value`, keeping the other bits.
    pub fn set(self, register: &mut u8, value: bool)
        ensures
            *final(register) == with_flag(*old(register), self, value),
    {
        let mask = self.mask();
        if value {
            *register = *register | mask;
        } else {
            *register = *register & !mask;
        }
    }

    /// Whether this flag is set in `register`.
    pub fn get(self, register: &u8) -> (r: bool)
        ensures
            r == flag_bit(*register, self),
    {
        self.get_bit(register) > 0
    }

    /// This flag's bit of `register`, in place: its mask if set, else zero.
    pub fn get_bit(self, register: &u8) -> (r: u8)
        ensures
            r == *register & self.spec_mask(),
            r == (if flag_bit(*register, self) { self.spec_mask() } else { 0 }),
    {
        let mask = self.mask();
        let v = *register;
        assert(v & mask == 0 || v & mask == mask) by (bit_vector)
            requires
                mask == 1 || mask == 2 || mask == 4 || mask == 8 || mask == 16 || mask == 32
                    || mask == 64 || mask == 128,
        ;
        v & mask
    }

    /// Every flag, the named ones first.
    pub fn all() -> (r: [Flag; 8])
        ensures
            r@ == seq![
                Flag::Carry,
                Flag::AddSubtract,
                Flag::ParityOverflow,
                Flag::HalfCarry,
                Flag::Zero,
                Flag::Sign,
                Flag::Unused1,
                Flag::Unused2,
            ],
    {
        let r = [
            Flag::Carry,
            Flag::AddSubtract,
            Flag::ParityOverflow,
            Flag::HalfCarry,
            Flag::Zero,
            Flag::Sign,
            Flag::Unused1,
            Flag::Unused2,
        ];
        assert(r@ =~= seq![
            Flag::Carry,
            Flag::AddSubtract,
            Flag::ParityOverflow,
            Flag::HalfCarry,
            Flag::Zero,
            Flag::Sign,
            Flag::Unused1,
            Flag::Unused2,
        ]);
        r
    }

    /// Gives each flag of `affected`, in order, the value that `values`
    /// gives it, and leaves every other flag as it was.
    pub fn set_values(status: &mut u8, affected: &[Flag], values: &[(Flag, bool)])
        ensures
            *final(status) == apply_flags(*old(status), affected@, values@),
    {
        let mut i: usize = 0;
        while i < affected.len()
            invariant
                i <= affected.len(),
                *status == apply_flags(*old(status), affected@.subrange(0, i as int), values@),
            decreases affected.len() - i,
        {
            let flag = affected[i];
            let found = Flag::lookup(values, flag);
            proof {
                let next = affected@.subrange(0, i + 1);
                assert(next.drop_last() =~= affected@.subrange(0, i as int));
                assert(next.last() == flag);
            }
            match found {
                Some(value) => flag.set(status, value),
                None => {},
            }
            i = i + 1;
        }
        assert(affected@.subrange(0, affected.len() as int) =~= affected@);
    }

    /// The value that `values` gives to `flag`, the last pair naming it winning.
    fn lookup(values: &[(Flag, bool)], flag: Flag) -> (r: Option<bool>)
        ensures
            r == flag_value(values@, flag),
    {
        let mut j: usize = values.len();
        assert(values@.subrange(0, j as int) =~= values@);
        while j > 0
            invariant
                j <= values.len(),
                flag_value(values@, flag) == flag_value(values@.subrange(0, j as int), flag),
            decreases j,
        {
            let pair = values[j - 1];
            proof {
                let prefix = values@.subrange(0, j as int);
                assert(prefix.drop_last() =~= values@.subrange(0, j - 1));
            }
            if pair.0 == flag {
                return Some(pair.1);
            }
            j = j - 1;
        }
        None
    }
}

} // verus!
