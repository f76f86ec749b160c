//! Small verified string utilities the judge needs: building a `String`
//! from characters, character-exact string comparison, decimal
//! formatting, and decimal parsing as the sandbox result file uses it.

use vstd::prelude::*;
use vstd::string::*;

verus! {

/// Relies on `String::push`: appends exactly the given character.
pub assume_specification[ String::push ](s: &mut String, c: char)
    ensures
        final (s)@ == old(s)@.push(c),
;

/// A `String` holding exactly the given characters.
pub fn string_from_chars(v: &Vec<char>) -> (r: String)
    ensures
        r@ == v@,
{
    let mut r = String::new();
    let mut i: usize = 0;
    while i < v.len()
        invariant
            i <= v.len(),
            r@ == v@.take(i as int),
        decreases v.len() - i,
    {
        r.push(v[i]);
        proof {
            assert(v@.take(i as int).push(v@[i as int]) =~= v@.take(i + 1));
        }
        i = i + 1;
    }
    proof {
        assert(v@.take(v@.len() as int) =~= v@);
    }
    r
}

/// Character-exact equality of two string slices.
pub fn str_eq(a: &str, b: &str) -> (r: bool)
    ensures
        r == (a@ == b@),
{
    let an: usize = a.unicode_len();
    let bn: usize = b.unicode_len();
    if an != bn {
        return false;
    }
    let mut i: usize = 0;
    while i < an
        invariant
            i <= an,
            an == a@.len(),
            an == b@.len(),
            forall|k: int| 0 <= k < i ==> a@[k] == b@[k],
        decreases an - i,
    {
        if a.get_char(i) != b.get_char(i) {
            return false;
        }
        i = i + 1;
    }
    proof {
        assert(a@ =~= b@);
    }
    true
}

/// The character standing for one decimal digit.
pub open spec fn dec_digit(d: int) -> char {
    if d == 0 {
        '0'
    } else if d == 1 {
        '1'
    } else if d == 2 {
        '2'
    } else if d == 3 {
        '3'
    } else if d == 4 {
        '4'
    } else if d == 5 {
        '5'
    } else if d == 6 {
        '6'
    } else if d == 7 {
        '7'
    } else if d == 8 {
        '8'
    } else {
        '9'
    }
}

/// The decimal digit sequence of a non-negative number, most significant
/// digit first, without leading zeros (`0` is written as one digit).
pub open spec fn dec_str(n: nat) -> Seq<char>
    decreases n,
{
    if n < 10 {
        seq![dec_digit(n as int)]
    } else {
        dec_str(n / 10).push(dec_digit((n % 10) as int))
    }
}

/// The decimal writing of an integer: a minus sign for negative numbers,
/// then the digits of its magnitude.
pub open spec fn int_str(n: int) -> Seq<char> {
    if n < 0 {
        seq!['-'] + dec_str((-n) as nat)
    } else {
        dec_str(n as nat)
    }
}

fn dec_digit_exec(d: u64) -> (c: char)
    requires
        d < 10,
    ensures
        c == dec_digit(d as int),
{
    if d == 0 {
        '0'
    } else if d == 1 {
        '1'
    } else if d == 2 {
        '2'
    } else if d == 3 {
        '3'
    } else if d == 4 {
        '4'
    } else if d == 5 {
        '5'
    } else if d == 6 {
        '6'
    } else if d == 7 {
        '7'
    } else if d == 8 {
        '8'
    } else {
        '9'
    }
}

fn push_dec_u64(m: u64, out: &mut Vec<char>)
    ensures
        final (out)@ == old(out)@ + dec_str(m as nat),
    decreases m,
{
    if m >= 10 {
        push_dec_u64(m / 10, out);
    }
    out.push(dec_digit_exec(m % 10));
    proof {
        assert(out@ =~= old(out)@ + dec_str(m as nat));
    }
}

/// The decimal digits of an integer, pushed onto a character buffer.
pub fn push_decimal_i32(n: i32, out: &mut Vec<char>)
    ensures
        final (out)@ == old(out)@ + int_str(n as int),
{
    if n < 0 {
        out.push('-');
        let m: u64 = (-(n as i64)) as u64;
        push_dec_u64(m, out);
        proof {
            assert(out@ =~= old(out)@ + int_str(n as int));
        }
    } else {
        push_dec_u64(n as u64, out);
    }
}

/// The decimal writing of an integer as a `String`.
pub fn i32_to_string(n: i32) -> (r: String)
    ensures
        r@ == int_str(n as int),
{
    let mut buf: Vec<char> = Vec::new();
    push_decimal_i32(n, &mut buf);
    string_from_chars(&buf)
}

/// A non-negative number written in decimal and zero-padded on the left
/// to at least two digits.
pub open spec fn two_digit_str(n: int) -> Seq<char> {
    if 0 <= n < 10 {
        seq!['0'] + dec_str(n as nat)
    } else if n >= 0 {
        dec_str(n as nat)
    } else {
        int_str(n)
    }
}

/// Pushes a number zero-padded to at least two decimal digits.
pub fn push_two_digit(n: i32, out: &mut Vec<char>)
    ensures
        final (out)@ == old(out)@ + two_digit_str(n as int),
{
    if 0 <= n && n < 10 {
        out.push('0');
        push_decimal_i32(n, out);
        proof {
            assert(out@ =~= old(out)@ + two_digit_str(n as int));
        }
    } else {
        push_decimal_i32(n, out);
    }
}

/// Whether a character is a decimal digit.
pub open spec fn is_dec_digit(c: char) -> bool {
    0x30 <= c as u32 && c as u32 <= 0x39
}

/// The numeric value of a decimal digit character.
pub open spec fn digit_val(c: char) -> int {
    c as u32 - 0x30
}

/// Whether a character sequence is one or more decimal digits.
pub open spec fn is_digits(s: Seq<char>) -> bool {
    s.len() > 0 && forall|i: int| 0 <= i < s.len() ==> is_dec_digit(#[trigger] s[i])
}

/// The number a digit sequence denotes.
pub open spec fn digits_val(s: Seq<char>) -> int
    decreases s.len(),
{
    if s.len() == 0 {
        0
    } else {
        digits_val(s.drop_last()) * 10 + digit_val(s.last())
    }
}

/// The integer a character sequence denotes under the usual decimal
/// grammar: an optional `+` or `-` sign, then one or more digits.
/// `None` where the sequence does not fit that grammar.
pub open spec fn decimal_int_of(s: Seq<char>) -> Option<int> {
    if s.len() > 0 && (s[0] == '+' || s[0] == '-') {
        let rest = s.skip(1);
        if is_digits(rest) {
            if s[0] == '-' {
                Some(-digits_val(rest))
            } else {
                Some(digits_val(rest))
            }
        } else {
            None
        }
    } else if is_digits(s) {
        Some(digits_val(s))
    } else {
        None
    }
}

/// What parsing a character sequence as an `i32` yields: the denoted
/// integer where the grammar fits and the value is representable,
/// `None` otherwise.
pub open spec fn spec_parse_i32(s: Seq<char>) -> Option<i32> {
    match decimal_int_of(s) {
        Some(v) => if i32::MIN <= v && v <= i32::MAX {
            Some(v as i32)
        } else {
            None
        },
        None => None,
    }
}

proof fn lemma_digits_val_nonneg(s: Seq<char>)
    requires
        forall|i: int| 0 <= i < s.len() ==> is_dec_digit(#[trigger] s[i]),
    ensures
        digits_val(s) >= 0,
    decreases s.len(),
{
    if s.len() > 0 {
        lemma_digits_val_nonneg(s.drop_last());
    }
}

proof fn lemma_digits_val_prefix_bound(s: Seq<char>, i: int)
    requires
        forall|k: int| 0 <= k < s.len() ==> is_dec_digit(#[trigger] s[k]),
        0 <= i <= s.len(),
    ensures
        digits_val(s) >= digits_val(s.take(i)),
    decreases s.len() - i,
{
    if i < s.len() {
        lemma_digits_val_prefix_bound(s, i + 1);
        assert(s.take(i + 1).drop_last() =~= s.take(i));
        lemma_digits_val_nonneg(s.take(i));
    } else {
        assert(s.take(i) =~= s);
    }
}

fn is_digit_exec(c: char) -> (r: bool)
    ensures
        r == is_dec_digit(c),
{
    let u: u32 = c as u32;
    0x30 <= u && u <= 0x39
}

fn parse_digits(v: &Vec<char>, start: usize) -> (r: Option<i64>)
    requires
        start < v@.len(),
    ensures
        match r {
            Some(x) => {
                &&& is_digits(v@.skip(start as int))
                &&& x == digits_val(v@.skip(start as int))
                &&& 0 <= x <= 0x8000_0000
            },
            None => !is_digits(v@.skip(start as int)) || digits_val(v@.skip(start as int))
                > 0x8000_0000,
        },
{
    let ghost tail = v@.skip(start as int);
    let mut acc: i64 = 0;
    let mut i: usize = start;
    while i < v.len()
        invariant
            start <= i <= v@.len(),
            tail == v@.skip(start as int),
            forall|k: int| 0 <= k < i - start ==> is_dec_digit(#[trigger] tail[k]),
            acc == digits_val(tail.take(i - start)),
            0 <= acc <= 0x8000_0000,
        decreases v@.len() - i,
    {
        let c = v[i];
        proof {
            assert(tail[i - start] == v@[i as int]);
        }
        if !is_digit_exec(c) {
            proof {
                assert(!is_digits(tail));
            }
            return None;
        }
        let d: i64 = (c as u32) as i64 - 0x30;
        proof {
            assert(tail.take(i - start + 1).drop_last() =~= tail.take(i - start));
            assert(tail.take(i - start + 1).last() == tail[i - start]);
        }
        acc = acc * 10 + d;
        i = i + 1;
        if acc > 0x8000_0000 {
            proof {
                if is_digits(tail) {
                    lemma_digits_val_prefix_bound(tail, i - start);
                }
            }
            return None;
        }
    }
    if i == start {
        return None;
    }
    proof {
        assert(tail.take(tail.len() as int) =~= tail);
    }
    Some(acc)
}

/// Parses a character sequence as an `i32`, exactly as the decimal
/// grammar above reads it: an optional sign, then digits, nothing else.
pub fn parse_i32(v: &Vec<char>) -> (r: Option<i32>)
    ensures
        r == spec_parse_i32(v@),
{
    if v.len() == 0 {
        return None;
    }
    let first = v[0];
    if first == '+' || first == '-' {
        if v.len() == 1 {
            proof {
                assert(!is_digits(v@.skip(1)));
            }
            return None;
        }
        let m = parse_digits(v, 1);
        match m {
            Some(x) => {
                if first == '-' {
                    proof {
                        assert(-x >= i32::MIN);
                    }
                    Some((-x) as i32)
                } else {
                    if x <= 0x7fff_ffff {
                        Some(x as i32)
                    } else {
                        None
                    }
                }
            },
            None => None,
        }
    } else {
        let m = parse_digits(v, 0);
        proof {
            assert(v@.skip(0) =~= v@);
        }
        match m {
            Some(x) => {
                if x <= 0x7fff_ffff {
                    Some(x as i32)
                } else {
                    None
                }
            },
            None => None,
        }
    }
}

} // verus!
