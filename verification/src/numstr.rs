//! Decimal numerals: formatting integers as strings and parsing numeric
//! segments of filenames and probe output.
//!
//! The specification side works on `Seq<char>`; every executable function is
//! proved to agree with it exactly.

use crate::strutil::spec_first_index;
use vstd::prelude::*;

verus! {

broadcast use vstd::string::group_string_axioms;

/// The character for one decimal digit.
pub open spec fn spec_digit_char(d: int) -> char {
    if d == 0 {
        '0'
    } else if d == 1 {
        '1'
    } else if d == 2 {
        '2'
    } else if d == 3 {
        '3'
    } else if d == 4 {
        '4'
    } else if d == 5 {
        '5'
    } else if d == 6 {
        '6'
    } else if d == 7 {
        '7'
    } else if d == 8 {
        '8'
    } else {
        '9'
    }
}

/// The usual base-ten numeral of `n`, without sign or leading zeros
/// (a single `'0'` for zero).
pub open spec fn spec_u64_string(n: nat) -> Seq<char>
    decreases n,
{
    if n < 10 {
        seq![spec_digit_char(n as int)]
    } else {
        spec_u64_string(n / 10) + seq![spec_digit_char((n % 10) as int)]
    }
}

/// The one-character string for a decimal digit.
pub fn digit_str(d: u64) -> (r: &'static str)
    requires
        d < 10,
    ensures
        r@ == seq![spec_digit_char(d as int)],
{
    proof {
        reveal_strlit("0");
        reveal_strlit("1");
        reveal_strlit("2");
        reveal_strlit("3");
        reveal_strlit("4");
        reveal_strlit("5");
        reveal_strlit("6");
        reveal_strlit("7");
        reveal_strlit("8");
        reveal_strlit("9");
    }
    let r: &'static str = match d {
        0 => "0",
        1 => "1",
        2 => "2",
        3 => "3",
        4 => "4",
        5 => "5",
        6 => "6",
        7 => "7",
        8 => "8",
        _ => "9",
    };
    proof {
        assert(r@ =~= seq![spec_digit_char(d as int)]);
    }
    r
}

/// Renders `n` in base ten.
pub fn u64_to_string(n: u64) -> (s: String)
    ensures
        s@ == spec_u64_string(n as nat),
    decreases n,
{
    if n < 10 {
        let mut s = String::new();
        s.append(digit_str(n));
        proof {
            assert(s@ =~= spec_u64_string(n as nat));
        }
        s
    } else {
        let mut s = u64_to_string(n / 10);
        s.append(digit_str(n % 10));
        s
    }
}

/// Whether `c` is an ASCII decimal digit.
pub open spec fn spec_is_digit(c: char) -> bool {
    '0' <= c && c <= '9'
}

/// The numeric value of a digit character.
pub open spec fn spec_digit_val(c: char) -> nat {
    (c as nat - '0' as nat) as nat
}

/// Whether every character of `s` is a decimal digit.
pub open spec fn spec_all_digits(s: Seq<char>) -> bool {
    forall|i: int| 0 <= i < s.len() ==> spec_is_digit(#[trigger] s[i])
}

/// The value of a digit string read in base ten.
pub open spec fn spec_digits_val(s: Seq<char>) -> nat
    decreases s.len(),
{
    if s.len() == 0 {
        0
    } else {
        spec_digits_val(s.drop_last()) * 10 + spec_digit_val(s.last())
    }
}

/// Peeling one digit off the end of a numeral.
pub proof fn lemma_digits_val_snoc(s: Seq<char>, i: int)
    requires
        0 <= i < s.len(),
    ensures
        spec_digits_val(s.subrange(0, i + 1)) == spec_digits_val(s.subrange(0, i)) * 10
            + spec_digit_val(s[i]),
{
    let t = s.subrange(0, i + 1);
    assert(t.drop_last() =~= s.subrange(0, i));
    assert(t.last() == s[i]);
}

/// A numeral is worth at least any of its prefixes.
pub proof fn lemma_digits_val_prefix_le(s: Seq<char>, i: int)
    requires
        0 <= i <= s.len(),
    ensures
        spec_digits_val(s.subrange(0, i)) <= spec_digits_val(s),
    decreases s.len() - i,
{
    if i == s.len() {
        assert(s.subrange(0, i) =~= s);
    } else {
        lemma_digits_val_snoc(s, i);
        lemma_digits_val_prefix_le(s, i + 1);
    }
}

/// The digits of an unsigned numeral: everything after an optional leading
/// `'+'`, which the standard integer parser also accepts.
pub open spec fn spec_numeral_body(s: Seq<char>) -> Seq<char> {
    if s.len() > 0 && s[0] == '+' {
        s.subrange(1, s.len() as int)
    } else {
        s
    }
}

/// Whether `s` parses as a `u32`: an optional `'+'`, then at least one
/// digit, with a value that fits.
pub open spec fn spec_is_u32_numeral(s: Seq<char>) -> bool {
    let b = spec_numeral_body(s);
    b.len() > 0 && spec_all_digits(b) && spec_digits_val(b) <= u32::MAX
}

/// The value `s` parses to, when `spec_is_u32_numeral(s)` holds.
pub open spec fn spec_u32_numeral_val(s: Seq<char>) -> nat {
    spec_digits_val(spec_numeral_body(s))
}

/// Parses an unsigned decimal numeral, exactly as the standard `u32` parser
/// reads it: `Some` precisely on an optional `'+'` followed by one or more
/// digits whose value fits in a `u32`.
pub fn parse_u32(s: &str) -> (r: Option<u32>)
    ensures
        r is Some <==> spec_is_u32_numeral(s@),
        r matches Some(v) ==> v as nat == spec_u32_numeral_val(s@),
{
    let len = s.unicode_len();
    let start: usize = if len > 0 && s.get_char(0) == '+' {
        1
    } else {
        0
    };
    let ghost body = spec_numeral_body(s@);
    proof {
        assert(body =~= s@.subrange(start as int, len as int));
    }
    if start >= len {
        return None;
    }
    let mut val: u64 = 0;
    let mut i: usize = start;
    while i < len
        invariant
            start <= i <= len,
            len == s@.len(),
            start == 1 <==> (s@.len() > 0 && s@[0] == '+'),
            start <= 1,
            body == s@.subrange(start as int, len as int),
            body == spec_numeral_body(s@),
            spec_all_digits(body.subrange(0, i - start)),
            val == spec_digits_val(body.subrange(0, i - start)),
            val <= u32::MAX,
        decreases len - i,
    {
        let c = s.get_char(i);
        if !(c >= '0' && c <= '9') {
            proof {
                assert(body[i - start] == s@[i as int]);
                assert(!spec_all_digits(body));
            }
            return None;
        }
        let d: u32 = c as u32 - '0' as u32;
        let next: u64 = val * 10 + d as u64;
        proof {
            lemma_digits_val_snoc(body, i - start);
            assert(next == spec_digits_val(body.subrange(0, i - start + 1)));
        }
        if next > 0xFFFF_FFFF {
            proof {
                lemma_digits_val_prefix_le(body, i - start + 1);
                assert(spec_digits_val(body) > u32::MAX);
            }
            return None;
        }
        val = next;
        i += 1;
    }
    proof {
        assert(body.subrange(0, len - start) =~= body);
    }
    Some(val as u32)
}

/// Ten to the `k`.
pub open spec fn spec_pow10(k: nat) -> nat
    decreases k,
{
    if k == 0 {
        1
    } else {
        10 * spec_pow10((k - 1) as nat)
    }
}

/// A numeral of `n` digits is below ten to the `n`.
pub proof fn lemma_digits_val_upper(s: Seq<char>)
    requires
        spec_all_digits(s),
    ensures
        spec_digits_val(s) < spec_pow10(s.len()),
    decreases s.len(),
{
    if s.len() > 0 {
        assert(forall|i: int|
            0 <= i < s.len() - 1 ==> #[trigger] s.drop_last()[i] == s[i]);
        lemma_digits_val_upper(s.drop_last());
        assert(spec_digit_val(s.last()) <= 9);
    }
}

/// Whether every character of `s` is a decimal digit.
pub fn check_all_digits(s: &str) -> (b: bool)
    ensures
        b == spec_all_digits(s@),
{
    let len = s.unicode_len();
    let mut i: usize = 0;
    while i < len
        invariant
            0 <= i <= len,
            len == s@.len(),
            forall|j: int| 0 <= j < i ==> spec_is_digit(#[trigger] s@[j]),
        decreases len - i,
    {
        let c = s.get_char(i);
        if !(c >= '0' && c <= '9') {
            return false;
        }
        i += 1;
    }
    true
}

/// Parses a string of digits (possibly empty) whose value is at most
/// `bound`: `Some` precisely when every character is a digit and the value
/// does not exceed the bound.
pub fn parse_digits_bounded(s: &str, bound: u64) -> (r: Option<u64>)
    requires
        bound <= 1_000_000_000_000_000_000,
    ensures
        r is Some <==> spec_all_digits(s@) && spec_digits_val(s@) <= bound,
        r matches Some(v) ==> v as nat == spec_digits_val(s@),
{
    let len = s.unicode_len();
    let mut val: u64 = 0;
    let mut i: usize = 0;
    while i < len
        invariant
            0 <= i <= len,
            len == s@.len(),
            bound <= 1_000_000_000_000_000_000,
            spec_all_digits(s@.subrange(0, i as int)),
            val == spec_digits_val(s@.subrange(0, i as int)),
            val <= bound,
        decreases len - i,
    {
        let c = s.get_char(i);
        if !(c >= '0' && c <= '9') {
            proof {
                assert(!spec_is_digit(s@[i as int]));
            }
            return None;
        }
        let d: u32 = c as u32 - '0' as u32;
        let next: u64 = val * 10 + d as u64;
        proof {
            lemma_digits_val_snoc(s@, i as int);
            assert(next == spec_digits_val(s@.subrange(0, i + 1)));
        }
        if next > bound {
            proof {
                lemma_digits_val_prefix_le(s@, i + 1);
            }
            return None;
        }
        val = next;
        i += 1;
    }
    proof {
        assert(s@.subrange(0, len as int) =~= s@);
    }
    Some(val)
}

/// The fractional digits of a decimal, as microseconds of one unit: the
/// first six digits taken at face value, rounded half up by the seventh.
pub open spec fn spec_frac_us(f: Seq<char>) -> nat {
    if f.len() >= 6 {
        spec_digits_val(f.subrange(0, 6)) + if f.len() > 6 && spec_digit_val(f[6]) >= 5 {
            1nat
        } else {
            0nat
        }
    } else {
        spec_digits_val(f) * spec_pow10((6 - f.len()) as nat)
    }
}

/// Reads a fraction's digits as microseconds: `Some` precisely when every
/// character is a digit.
fn parse_frac_us(f: &str) -> (r: Option<u64>)
    ensures
        r is Some <==> spec_all_digits(f@),
        r matches Some(v) ==> v as nat == spec_frac_us(f@) && v <= 1_000_000,
{
    proof {
        reveal_with_fuel(spec_pow10, 8);
    }
    let len = f.unicode_len();
    if !check_all_digits(f) {
        return None;
    }
    if len >= 6 {
        let six = f.substring_char(0, 6);
        proof {
            assert(forall|i: int| 0 <= i < 6 ==> six@[i] == #[trigger] f@[i]);
            lemma_digits_val_upper(six@);
        }
        let v6 = parse_digits_bounded(six, 999_999).unwrap();
        let round: u64 = if len > 6 && f.get_char(6) >= '5' {
            1
        } else {
            0
        };
        Some(v6 + round)
    } else {
        proof {
            lemma_digits_val_upper(f@);
        }
        let v = parse_digits_bounded(f, 999_999).unwrap();
        let scaled: u64 = if len == 0 {
            v * 1_000_000
        } else if len == 1 {
            v * 100_000
        } else if len == 2 {
            v * 10_000
        } else if len == 3 {
            v * 1_000
        } else if len == 4 {
            v * 100
        } else {
            v * 10
        };
        Some(scaled)
    }
}

/// The digits before the first `'.'` of `s` (all of `s` when there is no
/// dot).
pub open spec fn spec_int_part(s: Seq<char>) -> Seq<char> {
    s.subrange(0, spec_first_index(s, '.'))
}

/// The digits after the first `'.'` of `s`; empty when there is no dot.
pub open spec fn spec_frac_part(s: Seq<char>) -> Seq<char> {
    let k = spec_first_index(s, '.');
    if k < s.len() {
        s.subrange(k + 1, s.len() as int)
    } else {
        Seq::<char>::empty()
    }
}

/// A plain decimal number: digits, at most one dot, at least one digit on
/// one of its sides.
pub open spec fn spec_is_simple_decimal(s: Seq<char>) -> bool {
    let ip = spec_int_part(s);
    let fp = spec_frac_part(s);
    ip.len() + fp.len() > 0 && spec_all_digits(ip) && spec_all_digits(fp)
}

/// The value of a decimal number in microseconds, rounded half up to whole
/// microseconds.
pub open spec fn spec_decimal_us(s: Seq<char>) -> nat {
    spec_digits_val(spec_int_part(s)) * 1_000_000 + spec_frac_us(spec_frac_part(s))
}

/// The value of a decimal number rounded half up to a whole unit.
pub open spec fn spec_decimal_round(s: Seq<char>) -> nat {
    let fp = spec_frac_part(s);
    spec_digits_val(spec_int_part(s)) + if fp.len() > 0 && spec_digit_val(fp[0]) >= 5 {
        1nat
    } else {
        0nat
    }
}

/// Ceiling on durations this library accepts, in microseconds.
pub const MAX_DURATION_US: u64 = 100_000_000_000_000;

/// Parses a probed duration, given in seconds as a plain decimal, into
/// microseconds rounded half up: `Some` precisely when the text is a simple
/// decimal and the value stays under the duration ceiling.
pub fn parse_duration_us(s: &str) -> (r: Option<u64>)
    ensures
        r is Some <==> spec_is_simple_decimal(s@) && spec_decimal_us(s@) <= MAX_DURATION_US,
        r matches Some(v) ==> v as nat == spec_decimal_us(s@),
{
    let len = s.unicode_len();
    let k = crate::strutil::find_first(s, '.');
    proof {
        crate::strutil::lemma_first_index_properties(s@, '.');
    }
    let ip = s.substring_char(0, k);
    let fp = if k < len {
        s.substring_char(k + 1, len)
    } else {
        s.substring_char(len, len)
    };
    proof {
        assert(ip@ == spec_int_part(s@));
        if k >= len {
            assert(fp@ =~= spec_frac_part(s@));
        }
        assert(fp@ == spec_frac_part(s@));
    }
    if ip.unicode_len() == 0 && fp.unicode_len() == 0 {
        return None;
    }
    let iv = match parse_digits_bounded(ip, 100_000_000) {
        Some(v) => v,
        None => {
            return None;
        },
    };
    let fv = match parse_frac_us(fp) {
        Some(v) => v,
        None => {
            return None;
        },
    };
    let us = iv * 1_000_000 + fv;
    if us <= MAX_DURATION_US {
        Some(us)
    } else {
        None
    }
}

/// Parses a plain decimal and rounds it half up to a whole number, as the
/// frame-rate fallback path does: `Some` precisely when the text is a simple
/// decimal whose rounded value fits in a `u32`.
pub fn parse_decimal_round(s: &str) -> (r: Option<u32>)
    ensures
        r is Some <==> spec_is_simple_decimal(s@) && spec_decimal_round(s@) <= u32::MAX,
        r matches Some(v) ==> v as nat == spec_decimal_round(s@),
{
    let len = s.unicode_len();
    let k = crate::strutil::find_first(s, '.');
    proof {
        crate::strutil::lemma_first_index_properties(s@, '.');
    }
    let ip = s.substring_char(0, k);
    let fp = if k < len {
        s.substring_char(k + 1, len)
    } else {
        s.substring_char(len, len)
    };
    proof {
        assert(ip@ == spec_int_part(s@));
        if k >= len {
            assert(fp@ =~= spec_frac_part(s@));
        }
        assert(fp@ == spec_frac_part(s@));
    }
    if ip.unicode_len() == 0 && fp.unicode_len() == 0 {
        return None;
    }
    let iv = match parse_digits_bounded(ip, 0xFFFF_FFFF) {
        Some(v) => v,
        None => {
            return None;
        },
    };
    if !check_all_digits(fp) {
        return None;
    }
    let round: u64 = if fp.unicode_len() > 0 && fp.get_char(0) >= '5' {
        1
    } else {
        0
    };
    let total = iv + round;
    if total <= 0xFFFF_FFFF {
        Some(total as u32)
    } else {
        None
    }
}

} // verus!
