//! Verified text primitives: decimal integer parsing and formatting,
//! character-wise string comparison, and the JSON string-literal encoding
//! that the snapshot serializer uses.

use vstd::prelude::*;
use vstd::string::StrSliceExecFns;
use vstd::string::StringExecFns;

verus! {

/// The character for one decimal digit value.
pub open spec fn digit_char(d: nat) -> char
    recommends
        d < 10,
{
    if d == 0 {
        '0'
    } else if d == 1 {
        '1'
    } else if d == 2 {
        '2'
    } else if d == 3 {
        '3'
    } else if d == 4 {
        '4'
    } else if d == 5 {
        '5'
    } else if d == 6 {
        '6'
    } else if d == 7 {
        '7'
    } else if d == 8 {
        '8'
    } else {
        '9'
    }
}

/// The decimal rendering of a natural number, most significant digit first,
/// with no sign and no padding.
pub open spec fn dec_nat(n: nat) -> Seq<char>
    decreases n,
{
    if n < 10 {
        seq![digit_char(n)]
    } else {
        dec_nat(n / 10).push(digit_char(n % 10))
    }
}

/// The decimal rendering of an integer: the magnitude's digits, preceded by
/// `-` for negative values.
pub open spec fn int_chars(v: int) -> Seq<char> {
    if v < 0 {
        seq!['-'] + dec_nat((-v) as nat)
    } else {
        dec_nat(v as nat)
    }
}

/// Relies on `String::push`: it appends exactly the one character.
#[verifier::external_body]
fn push_char(out: &mut String, c: char)
    ensures
        final(out)@ == old(out)@.push(c),
{
    out.push(c);
}

fn digit_to_char(d: u8) -> (c: char)
    requires
        d < 10,
    ensures
        c == digit_char(d as nat),
{
    match d {
        0 => '0',
        1 => '1',
        2 => '2',
        3 => '3',
        4 => '4',
        5 => '5',
        6 => '6',
        7 => '7',
        8 => '8',
        _ => '9',
    }
}

/// Appends the decimal rendering of `v` to `out`.
pub fn append_u32_dec(out: &mut String, v: u32)
    ensures
        final(out)@ == old(out)@ + dec_nat(v as nat),
    decreases v,
{
    if v >= 10 {
        append_u32_dec(out, v / 10);
    }
    let d: u8 = (v % 10) as u8;
    push_char(out, digit_to_char(d));
    proof {
        assert(out@ =~= old(out)@ + dec_nat(v as nat));
    }
}

/// Appends the decimal rendering of `v` to `out`, `-` sign included.
pub fn append_i32(out: &mut String, v: i32)
    ensures
        final(out)@ == old(out)@ + int_chars(v as int),
{
    if v < 0 {
        push_char(out, '-');
        let m: u32 = (-(v as i64)) as u32;
        append_u32_dec(out, m);
        proof {
            assert(out@ =~= old(out)@ + int_chars(v as int));
        }
    } else {
        append_u32_dec(out, v as u32);
    }
}

/// Character-wise equality of two string slices.
pub fn str_eq(a: &str, b: &str) -> (r: bool)
    ensures
        r == (a@ == b@),
{
    let n = a.unicode_len();
    if n != b.unicode_len() {
        return false;
    }
    let mut i: usize = 0;
    while i < n
        invariant
            i <= n,
            n == a@.len(),
            n == b@.len(),
            forall|k: int| 0 <= k < i ==> a@[k] == b@[k],
        decreases n - i,
    {
        if a.get_char(i) != b.get_char(i) {
            return false;
        }
        i += 1;
    }
    proof {
        assert(a@ =~= b@);
    }
    true
}

/// Whether `c` is a decimal digit.
pub open spec fn is_digit(c: char) -> bool {
    48 <= c as u32 <= 57
}

/// The value of a decimal digit character.
pub open spec fn digit_val(c: char) -> int {
    c as u32 - 48
}

/// Whether every character of `s` is a decimal digit.
pub open spec fn all_digits(s: Seq<char>) -> bool {
    forall|k: int| 0 <= k < s.len() ==> is_digit(#[trigger] s[k])
}

/// The digit characters of `s` read as a base-10 numeral.
pub open spec fn digits_val(s: Seq<char>) -> int
    decreases s.len(),
{
    if s.len() == 0 {
        0
    } else {
        digits_val(s.drop_last()) * 10 + digit_val(s.last())
    }
}

/// The digits of an integer literal: everything after an optional sign.
pub open spec fn int_body(s: Seq<char>) -> Seq<char> {
    if s.len() > 0 && (s[0] == '+' || s[0] == '-') {
        s.drop_first()
    } else {
        s
    }
}

/// Whether `s` is an optionally signed, non-empty run of decimal digits.
pub open spec fn is_int_literal(s: Seq<char>) -> bool {
    int_body(s).len() > 0 && all_digits(int_body(s))
}

/// The value of an integer literal.
pub open spec fn int_literal_val(s: Seq<char>) -> int {
    if s.len() > 0 && s[0] == '-' {
        -digits_val(int_body(s))
    } else {
        digits_val(int_body(s))
    }
}

/// Whether `s` parses as an `i32`: an integer literal whose value fits the
/// type. This is exactly the set of inputs `str::parse::<i32>` accepts.
pub open spec fn parses_to_i32(s: Seq<char>) -> bool {
    is_int_literal(s) && i32::MIN <= int_literal_val(s) <= i32::MAX
}

proof fn lemma_digits_val_nonneg(s: Seq<char>)
    requires
        all_digits(s),
    ensures
        digits_val(s) >= 0,
    decreases s.len(),
{
    if s.len() > 0 {
        assert forall|k: int| 0 <= k < s.drop_last().len() implies is_digit(
            #[trigger] s.drop_last()[k],
        ) by {
            assert(s.drop_last()[k] == s[k]);
        }
        lemma_digits_val_nonneg(s.drop_last());
    }
}

/// Reading more digits never shrinks the numeral's value.
proof fn lemma_digits_val_take_le(s: Seq<char>, i: int)
    requires
        all_digits(s),
        0 <= i <= s.len(),
    ensures
        digits_val(s.take(i)) <= digits_val(s),
    decreases s.len() - i,
{
    assert forall|k: int| 0 <= k < s.take(i).len() implies is_digit(#[trigger] s.take(i)[k]) by {
        assert(s.take(i)[k] == s[k]);
    }
    if i == s.len() {
        assert(s.take(i) =~= s);
    } else {
        assert(s.take(i + 1).drop_last() =~= s.take(i));
        assert(s.take(i + 1).last() == s[i]);
        lemma_digits_val_nonneg(s.take(i));
        assert(digits_val(s.take(i + 1)) == digits_val(s.take(i)) * 10 + digit_val(s[i]));
        lemma_digits_val_take_le(s, i + 1);
    }
}

/// Parses `s` as Rust's `str::parse::<i32>` does: an optional `+` or `-`
/// sign followed by one or more decimal digits, rejected when the input is
/// empty, holds any other character, or names a value outside `i32`'s range.
pub fn parse_i32(s: &str) -> (r: Option<i32>)
    ensures
        r is Some <==> parses_to_i32(s@),
        r matches Some(v) ==> v as int == int_literal_val(s@),
{
    let n = s.unicode_len();
    if n == 0 {
        return None;
    }
    let first = s.get_char(0);
    let neg = first == '-';
    let start: usize = if first == '-' || first == '+' {
        1
    } else {
        0
    };
    if start == n {
        return None;
    }
    let ghost body = int_body(s@);
    proof {
        assert(body =~= s@.subrange(start as int, n as int));
    }
    let mut i: usize = start;
    let mut mag: u64 = 0;
    while i < n
        invariant
            start <= i <= n,
            n == s@.len(),
            0 < n,
            start == 1 <==> (s@[0] == '-' || s@[0] == '+'),
            start <= 1,
            neg == (s@[0] == '-'),
            body == int_body(s@),
            body =~= s@.subrange(start as int, n as int),
            forall|k: int| start <= k < i ==> is_digit(#[trigger] s@[k]),
            mag == digits_val(s@.subrange(start as int, i as int)),
            mag <= 0x8000_0000,
        decreases n - i,
    {
        let c = s.get_char(i);
        let cv = c as u32;
        if cv < 48 || cv > 57 {
            proof {
                assert(body[i - start] == s@[i as int]);
                assert(!all_digits(body));
            }
            return None;
        }
        let d: u64 = (cv - 48) as u64;
        let new_mag: u64 = mag * 10 + d;
        proof {
            assert(s@.subrange(start as int, i + 1).drop_last() =~= s@.subrange(
                start as int,
                i as int,
            ));
            assert(s@.subrange(start as int, i + 1).last() == s@[i as int]);
            assert(new_mag == digits_val(s@.subrange(start as int, i + 1)));
        }
        if new_mag > 0x8000_0000 {
            proof {
                if all_digits(body) {
                    assert(body.take(i + 1 - start) =~= s@.subrange(start as int, i + 1));
                    lemma_digits_val_take_le(body, i + 1 - start);
                    assert(digits_val(body) > 0x8000_0000);
                }
            }
            return None;
        }
        mag = new_mag;
        i += 1;
    }
    proof {
        assert(body =~= s@.subrange(start as int, i as int));
        assert(forall|k: int| 0 <= k < body.len() ==> is_digit(#[trigger] body[k]));
        assert(is_int_literal(s@));
    }
    if neg {
        let v: i32 = (-(mag as i64)) as i32;
        Some(v)
    } else {
        if mag > 0x7FFF_FFFF {
            return None;
        }
        Some(mag as i32)
    }
}

/// The JSON string literal (opening quote, escaped characters, closing
/// quote) that `serde_json` writes for a string with the given characters.
pub uninterp spec fn json_str_of(s: Seq<char>) -> Seq<char>;

/// Relies on `serde_json::to_string` for `&str`: it returns the JSON string
/// literal encoding the slice's characters, and depends on those characters
/// alone; serializing a string slice cannot fail, so the fallback arm is
/// never taken.
#[verifier::external_body]
pub(crate) fn json_string_literal(s: &str) -> (r: String)
    ensures
        r@ == json_str_of(s@),
{
    serde_json::to_string(s).unwrap_or_default()
}

/// The characters of a JSON value holding an optional integer: `null` when
/// the value is absent.
pub open spec fn opt_int_chars(v: Option<i32>) -> Seq<char> {
    match v {
        Option::None => "null"@,
        Option::Some(x) => int_chars(x as int),
    }
}

/// Appends the JSON value for an optional integer to `out`.
pub fn append_opt_i32(out: &mut String, v: Option<i32>)
    ensures
        final(out)@ == old(out)@ + opt_int_chars(v),
{
    match v {
        None => {
            out.append("null");
        },
        Some(x) => {
            append_i32(out, x);
        },
    }
}

} // verus!
