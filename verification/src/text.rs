//! Plain-text helpers: ASCII reasoning, decimal rendering and parsing of
//! `u64` values, and substring search. These carry the exact contracts that
//! the response decoders and payload builders are specified against.
use vstd::prelude::*;

verus! {

use vstd::utf8::is_ascii_chars;

/// The bytes of an ASCII character sequence, one byte per character.
pub open spec fn ascii_bytes(s: Seq<char>) -> Seq<u8> {
    s.map(|_i: int, c: char| c as u8)
}

/// The characters of an ASCII byte sequence, one character per byte.
pub open spec fn ascii_chars(b: Seq<u8>) -> Seq<char> {
    b.map(|_i: int, x: u8| x as char)
}

pub open spec fn all_bytes_ascii(b: Seq<u8>) -> bool {
    forall|i: int| 0 <= i < b.len() ==> #[trigger] b[i] < 128
}

pub proof fn lemma_ascii_bytes_chars(s: Seq<char>)
    requires
        is_ascii_chars(s),
    ensures
        ascii_chars(ascii_bytes(s)) =~= s,
        all_bytes_ascii(ascii_bytes(s)),
{
}

pub proof fn lemma_ascii_chars_bytes(b: Seq<u8>)
    requires
        all_bytes_ascii(b),
    ensures
        ascii_bytes(ascii_chars(b)) =~= b,
        is_ascii_chars(ascii_chars(b)),
{
}

/// Relies on `String::from_utf8`: decoding bytes that are all ASCII yields
/// exactly one character per byte, with the same codes.
#[verifier::external_body]
pub(crate) fn string_from_ascii(v: Vec<u8>) -> (r: String)
    requires
        all_bytes_ascii(v@),
    ensures
        r@ == ascii_chars(v@),
{
    String::from_utf8(v).unwrap()
}

pub open spec fn is_dec_digit(c: char) -> bool {
    '0' <= c && c <= '9'
}

pub open spec fn all_dec_digits(s: Seq<char>) -> bool {
    forall|i: int| 0 <= i < s.len() ==> is_dec_digit(#[trigger] s[i])
}

/// The numeric value of a sequence of decimal digit characters.
pub open spec fn digits_value(s: Seq<char>) -> nat
    decreases s.len(),
{
    if s.len() == 0 {
        0
    } else {
        digits_value(s.drop_last()) * 10 + ((s.last() as int - 48) as nat)
    }
}

/// A string that `parse_u64` accepts: nonempty, all decimal digits, and a
/// value that fits in a `u64`.
pub open spec fn valid_u64_decimal(s: Seq<char>) -> bool {
    s.len() > 0 && all_dec_digits(s) && digits_value(s) <= u64::MAX
}

proof fn lemma_digits_value_prefix(s: Seq<char>, k: int)
    requires
        all_dec_digits(s),
        0 <= k <= s.len(),
    ensures
        digits_value(s.subrange(0, k)) <= digits_value(s),
    decreases s.len() - k,
{
    if k == s.len() {
        assert(s.subrange(0, k) =~= s);
    } else {
        assert(s.subrange(0, k + 1).drop_last() =~= s.subrange(0, k));
        assert(s.subrange(0, k + 1).last() == s[k]);
        assert(digits_value(s.subrange(0, k)) <= digits_value(s.subrange(0, k + 1)));
        lemma_digits_value_prefix(s, k + 1);
    }
}

/// Parses a nonempty all-digit decimal string into a `u64`; rejects anything
/// else, including values that overflow.
pub fn parse_u64(s: &str) -> (r: Option<u64>)
    ensures
        match r {
            Some(n) => valid_u64_decimal(s@) && n == digits_value(s@),
            None => !valid_u64_decimal(s@),
        },
{
    let len = s.unicode_len();
    if len == 0 {
        return None;
    }
    let mut i: usize = 0;
    let mut acc: u64 = 0;
    while i < len
        invariant
            0 <= i <= len,
            len == s@.len(),
            all_dec_digits(s@.subrange(0, i as int)),
            acc == digits_value(s@.subrange(0, i as int)),
        decreases len - i,
    {
        let c = s.get_char(i);
        let code = c as u32;
        if code < 48 || code > 57 {
            assert(!is_dec_digit(s@[i as int]));
            return None;
        }
        let d: u64 = (code - 48) as u64;
        let wide: u128 = acc as u128 * 10 + d as u128;
        proof {
            assert(s@.subrange(0, i as int + 1).drop_last() =~= s@.subrange(0, i as int));
            assert(s@.subrange(0, i as int + 1).last() == s@[i as int]);
        }
        if wide > u64::MAX as u128 {
            proof {
                if valid_u64_decimal(s@) {
                    lemma_digits_value_prefix(s@, i as int + 1);
                }
            }
            return None;
        }
        acc = wide as u64;
        i = i + 1;
    }
    proof {
        assert(s@.subrange(0, len as int) =~= s@);
    }
    Some(acc)
}

/// The value `d` as a decimal digit character; meaningful for `d < 10`.
pub open spec fn dec_digit_char(d: nat) -> char {
    ((48 + d) as u8) as char
}

/// The decimal digit bytes of `n`, most significant first, no leading zeros.
pub open spec fn spec_u64_digits(n: nat) -> Seq<u8>
    decreases n,
{
    if n < 10 {
        seq![(48 + n) as u8]
    } else {
        spec_u64_digits(n / 10) + seq![(48 + n % 10) as u8]
    }
}

/// The decimal rendering of `n` as characters.
pub open spec fn spec_u64_string(n: nat) -> Seq<char> {
    ascii_chars(spec_u64_digits(n))
}

pub open spec fn all_dec_digit_bytes(b: Seq<u8>) -> bool {
    forall|i: int| 0 <= i < b.len() ==> 48 <= #[trigger] b[i] <= 57
}

pub proof fn lemma_u64_digits_ascii(n: nat)
    ensures
        all_dec_digit_bytes(spec_u64_digits(n)),
        all_bytes_ascii(spec_u64_digits(n)),
        all_dec_digits(spec_u64_string(n)),
        spec_u64_digits(n).len() > 0,
    decreases n,
{
    if n >= 10 {
        lemma_u64_digits_ascii(n / 10);
    }
    assert forall|i: int| 0 <= i < spec_u64_digits(n).len() implies 48 <= #[trigger] spec_u64_digits(
        n,
    )[i] <= 57 by {
        if n >= 10 {
            if i < spec_u64_digits(n / 10).len() {
                assert(spec_u64_digits(n)[i] == spec_u64_digits(n / 10)[i]);
            } else {
                assert(spec_u64_digits(n)[i] == (48 + n % 10) as u8);
            }
        }
    }
    assert forall|i: int| 0 <= i < spec_u64_string(n).len() implies is_dec_digit(
        #[trigger] spec_u64_string(n)[i],
    ) by {
        assert(48 <= spec_u64_digits(n)[i] <= 57);
    }
}

fn u64_digits(n: u64) -> (r: Vec<u8>)
    ensures
        r@ == spec_u64_digits(n as nat),
    decreases n,
{
    if n < 10 {
        let mut v: Vec<u8> = Vec::new();
        v.push(48 + n as u8);
        proof {
            assert(v@ =~= spec_u64_digits(n as nat));
        }
        v
    } else {
        let mut v = u64_digits(n / 10);
        v.push(48 + (n % 10) as u8);
        proof {
            assert(v@ =~= spec_u64_digits(n as nat));
        }
        v
    }
}

/// Renders `n` in decimal, most significant digit first, no leading zeros.
pub fn u64_to_string(n: u64) -> (r: String)
    ensures
        r@ == spec_u64_string(n as nat),
        is_ascii_chars(r@),
{
    let v = u64_digits(n);
    proof {
        lemma_u64_digits_ascii(n as nat);
        lemma_ascii_chars_bytes(v@);
    }
    string_from_ascii(v)
}

/// The needle `n` occurs in `h` starting at position `i`.
pub open spec fn contains_at(h: Seq<char>, n: Seq<char>, i: int) -> bool {
    0 <= i && i + n.len() <= h.len() && h.subrange(i, i + n.len() as int) == n
}

/// The needle `n` occurs somewhere in `h`.
pub open spec fn spec_contains(h: Seq<char>, n: Seq<char>) -> bool {
    exists|i: int| contains_at(h, n, i)
}

fn matches_at(h: &str, n: &str, i: usize) -> (r: bool)
    requires
        i + n@.len() <= h@.len(),
    ensures
        r == contains_at(h@, n@, i as int),
{
    let hl = h.unicode_len();
    let nl = n.unicode_len();
    let mut j: usize = 0;
    while j < nl
        invariant
            0 <= j <= nl,
            hl == h@.len(),
            nl == n@.len(),
            i + nl <= hl,
            forall|k: int| 0 <= k < j ==> h@[i + k] == n@[k],
        decreases nl - j,
    {
        if h.get_char(i + j) != n.get_char(j) {
            proof {
                assert(h@.subrange(i as int, i as int + n@.len() as int)[j as int] != n@[j as int]);
            }
            return false;
        }
        j = j + 1;
    }
    proof {
        assert(h@.subrange(i as int, i as int + n@.len() as int) =~= n@);
    }
    true
}

/// Substring search with an exact contract over `spec_contains`.
pub fn str_contains(h: &str, n: &str) -> (r: bool)
    ensures
        r == spec_contains(h@, n@),
{
    let hl = h.unicode_len();
    let nl = n.unicode_len();
    if nl > hl {
        proof {
            assert forall|i: int| !contains_at(h@, n@, i) by {}
        }
        return false;
    }
    if nl == 0 {
        proof {
            assert(h@.subrange(0, 0) =~= n@);
            assert(contains_at(h@, n@, 0));
        }
        return true;
    }
    let mut i: usize = 0;
    while i <= hl - nl
        invariant
            0 <= i <= hl - nl + 1,
            1 <= nl <= hl,
            hl == h@.len(),
            nl == n@.len(),
            forall|k: int| 0 <= k < i ==> !contains_at(h@, n@, k),
        decreases hl - i,
    {
        if matches_at(h, n, i) {
            return true;
        }
        i = i + 1;
    }
    proof {
        assert forall|k: int| !contains_at(h@, n@, k) by {}
    }
    false
}

/// Character-for-character string equality, with an exact contract.
pub fn str_eq(a: &str, b: &str) -> (r: bool)
    ensures
        r == (a@ == b@),
{
    let al = a.unicode_len();
    let bl = b.unicode_len();
    if al != bl {
        return false;
    }
    let r = matches_at(a, b, 0);
    proof {
        if r {
            assert(a@.subrange(0, a@.len() as int) =~= a@);
        } else {
            if a@ == b@ {
                assert(a@.subrange(0, b@.len() as int) =~= b@);
            }
        }
    }
    r
}

} // verus!
