//! Lowercase hexadecimal text for byte strings: public keys arrive as hex
//! text and payment hashes are recorded as hex text.
use vstd::prelude::*;
use vstd::string::{StrSliceExecFns, StringExecFns};

verus! {

/// The lowercase hexadecimal digit of a value below sixteen.
pub open spec fn hex_char(d: nat) -> char
    recommends
        d < 16,
{
    if d == 0 {
        '0'
    } else if d == 1 {
        '1'
    } else if d == 2 {
        '2'
    } else if d == 3 {
        '3'
    } else if d == 4 {
        '4'
    } else if d == 5 {
        '5'
    } else if d == 6 {
        '6'
    } else if d == 7 {
        '7'
    } else if d == 8 {
        '8'
    } else if d == 9 {
        '9'
    } else if d == 10 {
        'a'
    } else if d == 11 {
        'b'
    } else if d == 12 {
        'c'
    } else if d == 13 {
        'd'
    } else if d == 14 {
        'e'
    } else {
        'f'
    }
}

/// The lowercase hexadecimal text of a byte string: two digits per byte.
pub open spec fn hex_str_of(b: Seq<u8>) -> Seq<char>
    decreases b.len(),
{
    if b.len() == 0 {
        Seq::empty()
    } else {
        hex_str_of(b.drop_last()) + seq![
            hex_char((b.last() / 16) as nat),
            hex_char((b.last() % 16) as nat),
        ]
    }
}

pub open spec fn is_hex_lower_digit(c: char) -> bool {
    ('0' <= c && c <= '9') || ('a' <= c && c <= 'f')
}

/// The value of a lowercase hexadecimal digit.
pub open spec fn hex_digit_val(c: char) -> nat
    recommends
        is_hex_lower_digit(c),
{
    if '0' <= c && c <= '9' {
        (c as u32 - '0' as u32) as nat
    } else {
        (c as u32 - 'a' as u32 + 10) as nat
    }
}

/// The texts that decode to bytes: an even count of lowercase hexadecimal
/// digits.
pub open spec fn is_hex_text(s: Seq<char>) -> bool {
    &&& s.len() % 2 == 0
    &&& forall|i: int| 0 <= i < s.len() ==> is_hex_lower_digit(s[i])
}

/// The bytes a hexadecimal text denotes, two digits at a time.
pub open spec fn hex_bytes_of(s: Seq<char>) -> Seq<u8>
    decreases s.len(),
{
    if s.len() < 2 {
        Seq::empty()
    } else {
        hex_bytes_of(s.subrange(0, s.len() - 2)) + seq![
            (hex_digit_val(s[s.len() - 2]) * 16 + hex_digit_val(s[s.len() - 1])) as u8,
        ]
    }
}

/// Writes a byte string as lowercase hexadecimal text.
pub fn hex_encode(bytes: &[u8]) -> (r: String)
    ensures
        r@ == hex_str_of(bytes@),
{
    let table = "0123456789abcdef";
    proof {
        reveal_strlit("0123456789abcdef");
        assert(table.is_ascii());
    }
    let mut out = String::new();
    let mut i: usize = 0;
    while i < bytes.len()
        invariant
            0 <= i <= bytes@.len(),
            out@ == hex_str_of(bytes@.take(i as int)),
            table@ =~= "0123456789abcdef"@,
            table.is_ascii(),
            table@.len() == 16,
        decreases bytes@.len() - i,
    {
        let b = bytes[i];
        let hi = (b / 16) as usize;
        let lo = (b % 16) as usize;
        proof {
            reveal_strlit("0123456789abcdef");
            assert(table@[hi as int] == hex_char(hi as nat));
            assert(table@[lo as int] == hex_char(lo as nat));
            assert(bytes@.take(i + 1).drop_last() =~= bytes@.take(i as int));
            assert(bytes@.take(i + 1).last() == bytes@[i as int]);
        }
        out.append(table.substring_ascii(hi, hi + 1));
        out.append(table.substring_ascii(lo, lo + 1));
        proof {
            assert(out@ =~= hex_str_of(bytes@.take(i + 1)));
        }
        i = i + 1;
    }
    proof {
        assert(bytes@.take(bytes@.len() as int) =~= bytes@);
    }
    out
}

/// Reads lowercase hexadecimal text back into bytes, accepting exactly the
/// texts [`is_hex_text`] describes: an odd length or any character outside
/// the lowercase digits is refused.
pub fn hex_decode(s: &str) -> (r: Option<Vec<u8>>)
    ensures
        r is Some <==> is_hex_text(s@),
        r matches Some(v) ==> v@ == hex_bytes_of(s@),
{
    let n = s.unicode_len();
    if n % 2 != 0 {
        return None;
    }
    let mut out: Vec<u8> = Vec::new();
    let mut i: usize = 0;
    while i < n
        invariant
            0 <= i <= n,
            i % 2 == 0,
            n % 2 == 0,
            n == s@.len(),
            forall|j: int| 0 <= j < i ==> is_hex_lower_digit(s@[j]),
            out@ == hex_bytes_of(s@.take(i as int)),
        decreases n - i,
    {
        let hi = match hex_digit(s.get_char(i)) {
            Some(d) => d,
            None => { return None; },
        };
        let lo = match hex_digit(s.get_char(i + 1)) {
            Some(d) => d,
            None => { return None; },
        };
        proof {
            assert(s@.take(i + 2).subrange(0, i as int) =~= s@.take(i as int));
            assert(s@.take(i + 2)[i as int] == s@[i as int]);
            assert(s@.take(i + 2)[i + 1] == s@[i + 1]);
        }
        out.push((hi * 16 + lo) as u8);
        proof {
            assert(out@ =~= hex_bytes_of(s@.take(i + 2)));
        }
        i = i + 2;
    }
    proof {
        assert(s@.take(s@.len() as int) =~= s@);
    }
    Some(out)
}

/// The value of one character as a lowercase hexadecimal digit.
fn hex_digit(c: char) -> (r: Option<u8>)
    ensures
        r is Some <==> is_hex_lower_digit(c),
        r matches Some(d) ==> d == hex_digit_val(c) && d < 16,
{
    let u = c as u32;
    if 48 <= u && u <= 57 {
        Some((u - 48) as u8)
    } else if 97 <= u && u <= 102 {
        Some((u - 97 + 10) as u8)
    } else {
        None
    }
}

/// Hexadecimal text reads back to the bytes it was written from: the digit
/// pairs of [`hex_str_of`] are well formed and [`hex_bytes_of`] undoes
/// them.
pub proof fn lemma_hex_round_trip(b: Seq<u8>)
    ensures
        is_hex_text(hex_str_of(b)),
        hex_bytes_of(hex_str_of(b)) =~= b,
    decreases b.len(),
{
    if b.len() > 0 {
        lemma_hex_round_trip(b.drop_last());
        let s = hex_str_of(b);
        let hi = (b.last() / 16) as nat;
        let lo = (b.last() % 16) as nat;
        assert(s.len() == hex_str_of(b.drop_last()).len() + 2);
        assert(s.len() % 2 == 0);
        assert(forall|d: nat| d < 16 ==> is_hex_lower_digit(#[trigger] hex_char(d)));
        assert(forall|d: nat| d < 16 ==> hex_digit_val(#[trigger] hex_char(d)) == d);
        assert(forall|i: int| 0 <= i < s.len() ==> is_hex_lower_digit(s[i])) by {
            assert(forall|i: int|
                0 <= i < s.len() - 2 ==> s[i] == hex_str_of(b.drop_last())[i]);
            assert(s[s.len() - 2] == hex_char(hi));
            assert(s[s.len() - 1] == hex_char(lo));
        }
        assert(s.subrange(0, s.len() - 2) =~= hex_str_of(b.drop_last()));
        assert(hex_digit_val(s[s.len() - 2]) * 16 + hex_digit_val(s[s.len() - 1]) == b.last());
        assert(hex_bytes_of(s) =~= hex_bytes_of(hex_str_of(b.drop_last())) + seq![b.last()]);
        assert(b.drop_last() + seq![b.last()] =~= b);
    }
}

} // verus!
