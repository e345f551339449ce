//! Small verified text utilities: character access, equality, and decimal
//! formatting of integers.

use vstd::prelude::*;

verus! {

/// Character-wise string equality.
pub fn str_eq(a: &str, b: &str) -> (r: bool)
    ensures
        r == (a@ == b@),
{
    let na = a.unicode_len();
    let nb = b.unicode_len();
    if na != nb {
        proof {
            assert(a@ != b@);
        }
        return false;
    }
    let mut i: usize = 0;
    while i < na
        invariant
            i <= na,
            na == a@.len(),
            na == b@.len(),
            forall|j: int| 0 <= j < i ==> a@[j] == b@[j],
        decreases na - i,
    {
        if a.get_char(i) != b.get_char(i) {
            proof {
                assert(a@ != b@);
            }
            return false;
        }
        i += 1;
    }
    proof {
        assert(a@ =~= b@);
    }
    true
}

/// The characters of a string, as a vector.
pub fn chars_of(s: &str) -> (r: Vec<char>)
    ensures
        r@ == s@,
{
    let n = s.unicode_len();
    let mut out: Vec<char> = Vec::new();
    let mut i: usize = 0;
    while i < n
        invariant
            i <= n,
            n == s@.len(),
            out@ =~= s@.subrange(0, i as int),
        decreases n - i,
    {
        out.push(s.get_char(i));
        i += 1;
    }
    proof {
        assert(out@ =~= s@);
    }
    out
}

/// Relies on `String`'s `FromIterator` over `char`: collecting the characters
/// of `v` yields the string with exactly those characters.
#[verifier::external_body]
pub fn string_of_chars(v: &Vec<char>) -> (r: String)
    ensures
        r@ == v@,
{
    v.iter().collect()
}

/// Decimal rendering of an integer: a minus sign for negatives, then the
/// digits, most significant first, with no leading zero except for `0`.
pub open spec fn spec_dec(n: int) -> Seq<char>
    decreases (if n < 0 {
        1 - n
    } else {
        n
    }),
{
    if n < 0 {
        seq!['-'].add(spec_dec(-n))
    } else if n < 10 {
        seq![spec_digit(n)]
    } else {
        spec_dec(n / 10).push(spec_digit(n % 10))
    }
}

/// The character for one decimal digit.
pub open spec fn spec_digit(d: int) -> char {
    ((48 + d) as u8) as char
}

/// Renders a non-negative magnitude in decimal.
fn dec_u64(m: u64) -> (r: Vec<char>)
    ensures
        r@ == spec_dec(m as int),
    decreases m,
{
    if m < 10 {
        let c: char = ((48u8 + (m as u8)) as char);
        let mut out: Vec<char> = Vec::new();
        out.push(c);
        proof {
            assert(out@ =~= seq![spec_digit(m as int)]);
        }
        out
    } else {
        let mut out = dec_u64(m / 10);
        let d: u8 = (m % 10) as u8;
        let c: char = ((48u8 + d) as char);
        out.push(c);
        proof {
            assert(out@ =~= spec_dec((m / 10) as int).push(spec_digit((m % 10) as int)));
            assert((m / 10) as int == (m as int) / 10);
            assert((m % 10) as int == (m as int) % 10);
        }
        out
    }
}

/// Decimal rendering of a 64-bit integer, exactly `spec_dec`.
pub fn int_chars(i: i64) -> (r: Vec<char>)
    ensures
        r@ == spec_dec(i as int),
{
    if i >= 0 {
        dec_u64(i as u64)
    } else {
        // magnitude of a negative value, safe for i64::MIN
        let m: u64 = ((-(i + 1)) as u64) + 1;
        proof {
            assert(m as int == -(i as int));
        }
        let digits = dec_u64(m);
        let mut out: Vec<char> = Vec::new();
        out.push('-');
        let mut j: usize = 0;
        while j < digits.len()
            invariant
                j <= digits@.len(),
                out@ =~= seq!['-'].add(digits@.subrange(0, j as int)),
            decreases digits@.len() - j,
        {
            out.push(digits[j]);
            j += 1;
        }
        proof {
            assert(digits@.subrange(0, digits@.len() as int) =~= digits@);
            assert(out@ =~= seq!['-'].add(spec_dec(m as int)));
        }
        out
    }
}

/// Decimal rendering of a 64-bit integer as a `String`.
pub fn int_to_string(i: i64) -> (r: String)
    ensures
        r@ == spec_dec(i as int),
{
    let v = int_chars(i);
    string_of_chars(&v)
}

} // verus!
