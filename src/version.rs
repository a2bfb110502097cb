//! Version numbers recorded at build time, as `major * 10000 + minor * 100 +
//! patch` written in decimal digits.
use vstd::prelude::*;

verus! {

pub open spec fn is_digit(b: u8) -> bool {
    48 <= b <= 57
}

pub open spec fn all_digits(s: Seq<u8>) -> bool {
    forall|i: int| 0 <= i < s.len() ==> is_digit(#[trigger] s[i])
}

/// The number that a string of decimal digits spells.
pub open spec fn digits_value(s: Seq<u8>) -> nat
    decreases s.len(),
{
    if s.len() == 0 {
        0
    } else {
        digits_value(s.drop_last()) * 10 + (s.last() - 48) as nat
    }
}

/// The number a recorded version string spells, or `fallback` when it is
/// empty, holds anything but digits, or does not fit in a `u32`.
pub open spec fn version_value(s: Seq<u8>, fallback: u32) -> u32 {
    if s.len() > 0 && all_digits(s) && digits_value(s) <= u32::MAX {
        digits_value(s) as u32
    } else {
        fallback
    }
}

proof fn lemma_digits_value_grows(s: Seq<u8>, k: int)
    requires
        all_digits(s),
        0 <= k <= s.len(),
    ensures
        digits_value(s.subrange(0, k)) <= digits_value(s),
    decreases s.len() - k,
{
    if k < s.len() {
        lemma_digits_value_grows(s, k + 1);
        assert(s.subrange(0, k + 1).drop_last() =~= s.subrange(0, k));
    } else {
        assert(s.subrange(0, k) =~= s);
    }
}

/// Reads a version number recorded as decimal digits.
pub fn parse_version_number(s: &[u8], fallback: u32) -> (r: u32)
    ensures
        r == version_value(s@, fallback),
{
    if s.len() == 0 {
        return fallback;
    }
    let mut value: u32 = 0;
    let mut i: usize = 0;
    while i < s.len()
        invariant
            i <= s@.len(),
            all_digits(s@.subrange(0, i as int)),
            value as nat == digits_value(s@.subrange(0, i as int)),
        decreases s@.len() - i,
    {
        let b = s[i];
        if b < 48 || b > 57 {
            assert(!is_digit(s@[i as int]));
            assert(!all_digits(s@));
            return fallback;
        }
        assert(s@.subrange(0, i + 1).drop_last() =~= s@.subrange(0, i as int));
        assert(all_digits(s@.subrange(0, i + 1)));
        let d = (b - 48) as u32;
        match value.checked_mul(10) {
            Some(t) => match t.checked_add(d) {
                Some(v) => {
                    value = v;
                },
                None => {
                    proof {
                        if all_digits(s@) {
                            lemma_digits_value_grows(s@, i + 1);
                        }
                    }
                    return fallback;
                },
            },
            None => {
                proof {
                    if all_digits(s@) {
                        lemma_digits_value_grows(s@, i + 1);
                    }
                }
                return fallback;
            },
        }
        i = i + 1;
    }
    assert(s@.subrange(0, i as int) =~= s@);
    value
}

} // verus!
