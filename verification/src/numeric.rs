//! Decimal parsing of unsigned numbers, as the boost payload supplies them
//! in numeric strings.
use vstd::prelude::*;
use vstd::string::StrSliceExecFns;

verus! {

pub open spec fn is_digit(c: char) -> bool {
    '0' <= c && c <= '9'
}

/// Numeric value of one decimal digit character.
pub open spec fn digit_val(c: char) -> nat
    recommends
        is_digit(c),
{
    (c as u32 - '0' as u32) as nat
}

pub open spec fn all_digits(s: Seq<char>) -> bool {
    forall|i: int| 0 <= i < s.len() ==> is_digit(s[i])
}

/// The number a digit string denotes in base ten.
pub open spec fn dec_value(s: Seq<char>) -> nat
    decreases s.len(),
{
    if s.len() == 0 {
        0
    } else {
        dec_value(s.drop_last()) * 10 + digit_val(s.last())
    }
}

/// The digits of a decimal string once an optional leading plus sign is
/// removed.
pub open spec fn digits_part(s: Seq<char>) -> Seq<char> {
    if s.len() > 0 && s[0] == '+' {
        s.subrange(1, s.len() as int)
    } else {
        s
    }
}

/// The strings accepted as a `u64`: an optional leading plus sign, then one
/// or more digits, denoting a number that fits in 64 bits.
pub open spec fn parses_as_u64(s: Seq<char>) -> bool {
    &&& digits_part(s).len() > 0
    &&& all_digits(digits_part(s))
    &&& dec_value(digits_part(s)) <= u64::MAX
}

/// The number an accepted string denotes.
pub open spec fn parsed_u64(s: Seq<char>) -> nat {
    dec_value(digits_part(s))
}

/// A longer digit string never denotes a smaller number.
proof fn lemma_dec_value_prefix_le(s: Seq<char>, j: int)
    requires
        all_digits(s),
        0 <= j <= s.len(),
    ensures
        dec_value(s.take(j)) <= dec_value(s),
    decreases s.len() - j,
{
    if j < s.len() {
        assert(s.take(j + 1).drop_last() =~= s.take(j));
        assert(s.take(j + 1).last() == s[j]);
        assert(dec_value(s.take(j)) <= dec_value(s.take(j + 1)));
        lemma_dec_value_prefix_le(s, j + 1);
    } else {
        assert(s.take(j) =~= s);
    }
}

/// Reads a `u64` from decimal text, accepting exactly the strings that
/// [`parses_as_u64`] describes and returning the denoted number.
pub fn parse_u64(s: &str) -> (r: Option<u64>)
    ensures
        r is Some <==> parses_as_u64(s@),
        r matches Some(v) ==> v == parsed_u64(s@),
{
    let n = s.unicode_len();
    let mut start: usize = 0;
    if n > 0 && s.get_char(0) == '+' {
        start = 1;
    }
    if start == n {
        return None;
    }
    let ghost d = digits_part(s@);
    proof {
        assert(d =~= s@.subrange(start as int, n as int));
    }
    let mut acc: u64 = 0;
    let mut j: usize = start;
    while j < n
        invariant
            start <= j <= n,
            n == s@.len(),
            start == 1 ==> n > 0 && s@[0] == '+',
            start == 0 ==> !(n > 0 && s@[0] == '+'),
            d == digits_part(s@),
            d =~= s@.subrange(start as int, n as int),
            all_digits(d.take(j - start)),
            acc == dec_value(d.take(j - start)),
        decreases n - j,
    {
        let c = s.get_char(j);
        let u = c as u32;
        if u < 48 || u > 57 {
            proof {
                assert(d[j - start] == s@[j as int]);
                assert(!is_digit(d[j - start]));
            }
            return None;
        }
        let dv = (u - 48) as u64;
        proof {
            assert(d.take(j + 1 - start).drop_last() =~= d.take(j - start));
            assert(d.take(j + 1 - start).last() == s@[j as int]);
        }
        if acc > (u64::MAX - dv) / 10 {
            proof {
                assert(dec_value(d.take(j + 1 - start)) > u64::MAX) by {
                    assert(acc >= (u64::MAX - dv) / 10 + 1);
                    assert(acc * 10 >= ((u64::MAX - dv) / 10 + 1) * 10) by (nonlinear_arith)
                        requires
                            acc >= (u64::MAX - dv) / 10 + 1,
                    ;
                    assert(((u64::MAX - dv) / 10 + 1) * 10 > u64::MAX - dv);
                };
                if all_digits(d) {
                    lemma_dec_value_prefix_le(d, j + 1 - start);
                }
            }
            return None;
        }
        proof {
            assert(acc * 10 + dv <= u64::MAX) by {
                assert(acc <= (u64::MAX - dv) / 10);
                assert(acc * 10 <= ((u64::MAX - dv) / 10) * 10) by (nonlinear_arith)
                    requires
                        acc <= (u64::MAX - dv) / 10,
                ;
                assert(((u64::MAX - dv) / 10) * 10 <= u64::MAX - dv);
            };
        }
        acc = acc * 10 + dv;
        j = j + 1;
    }
    proof {
        assert(d.take(j - start) =~= d);
    }
    Some(acc)
}

} // verus!
