//! Small executable helpers for strings, characters and decimal numerals.

use vstd::prelude::*;

use crate::lexer::scan::is_digit_char;

verus! {

/// Whether every character of `s` is a decimal digit.
pub open spec fn all_digits(s: Seq<char>) -> bool {
    forall|i: int| 0 <= i < s.len() ==> #[trigger] is_digit_char(s[i])
}

/// The value of a digit sequence read as a decimal numeral.
pub open spec fn digits_val(s: Seq<char>) -> int
    decreases s.len(),
{
    if s.len() == 0 {
        0
    } else {
        digits_val(s.drop_last()) * 10 + (s.last() as int - '0' as int)
    }
}

/// What parsing a decimal numeral into an `i32` yields: the value of a
/// non-empty all-digit sequence that fits, and nothing otherwise.
pub open spec fn parse_i32_spec(s: Seq<char>) -> Option<i32> {
    if s.len() > 0 && all_digits(s) && digits_val(s) <= i32::MAX {
        Some(digits_val(s) as i32)
    } else {
        None
    }
}

/// A decimal numeral never reads as a negative value.
pub proof fn lemma_digits_val_nonneg(s: Seq<char>)
    requires
        all_digits(s),
    ensures
        digits_val(s) >= 0,
    decreases s.len(),
{
    if s.len() > 0 {
        let t = s.drop_last();
        assert forall|i: int| 0 <= i < t.len() implies #[trigger] is_digit_char(t[i]) by {
            assert(t[i] == s[i]);
        }
        lemma_digits_val_nonneg(t);
        assert(is_digit_char(s[s.len() - 1]));
        assert(s.last() as int - '0' as int >= 0);
    }
}

/// Extending a decimal numeral with further digits never shrinks its value.
pub proof fn lemma_digits_val_monotone(s: Seq<char>, i: int)
    requires
        all_digits(s),
        0 <= i <= s.len(),
    ensures
        digits_val(s.subrange(0, i)) <= digits_val(s),
    decreases s.len(),
{
    if i < s.len() {
        let t = s.drop_last();
        assert forall|j: int| 0 <= j < t.len() implies #[trigger] is_digit_char(t[j]) by {
            assert(t[j] == s[j]);
        }
        assert(s.subrange(0, i) =~= t.subrange(0, i));
        lemma_digits_val_monotone(t, i);
        lemma_digits_val_nonneg(t);
        assert(is_digit_char(s[s.len() - 1]));
        assert(s.last() as int - '0' as int >= 0);
        assert(digits_val(s) == digits_val(t) * 10 + (s.last() as int - '0' as int));
        assert(digits_val(t) * 10 >= digits_val(t));
    } else {
        assert(s.subrange(0, i) =~= s);
    }
}

/// Parses a decimal numeral into an `i32`: digits only, no sign, rejecting
/// the empty string and anything above `i32::MAX`.
pub fn parse_i32(s: &str) -> (r: Option<i32>)
    ensures
        r == parse_i32_spec(s@),
{
    let n = s.unicode_len();
    if n == 0 {
        return None;
    }
    let mut acc: i32 = 0;
    let mut i: usize = 0;
    while i < n
        invariant
            0 <= i <= n,
            n == s@.len(),
            all_digits(s@.subrange(0, i as int)),
            0 <= acc,
            acc as int == digits_val(s@.subrange(0, i as int)),
        decreases n - i,
    {
        let c = s.get_char(i);
        if !('0' <= c && c <= '9') {
            assert(!is_digit_char(s@[i as int]));
            return None;
        }
        let d: u32 = c as u32 - '0' as u32;
        let ghost pre = s@.subrange(0, i as int);
        let ghost ext = s@.subrange(0, i + 1 as int);
        proof {
            assert(ext.drop_last() =~= pre);
            assert(ext.last() == s@[i as int]);
            assert forall|j: int| 0 <= j < ext.len() implies #[trigger] is_digit_char(ext[j]) by {
                assert(ext[j] == s@[j]);
            }
        }
        if acc > (i32::MAX - d as i32) / 10 {
            proof {
                assert(10 * acc + d > i32::MAX) by (nonlinear_arith)
                    requires
                        acc > (i32::MAX - d as i32) / 10,
                        0 <= d <= 9,
                        acc >= 0,
                ;
                if all_digits(s@) && digits_val(s@) <= i32::MAX {
                    lemma_digits_val_monotone(s@, i + 1 as int);
                    assert(digits_val(ext) == 10 * acc + d);
                }
            }
            return None;
        }
        proof {
            assert(10 * acc + d <= i32::MAX) by (nonlinear_arith)
                requires
                    acc <= (i32::MAX - d as i32) / 10,
                    0 <= d <= 9,
                    acc >= 0,
            ;
        }
        acc = acc * 10 + d as i32;
        i = i + 1;
    }
    proof {
        assert(s@.subrange(0, n as int) =~= s@);
    }
    Some(acc)
}

/// Compares two string slices by their character sequences.
pub fn str_eq(a: &str, b: &str) -> (r: bool)
    ensures
        r == (a@ == b@),
{
    let x = a.to_owned();
    let y = b.to_owned();
    x == y
}

/// Collects a string slice's characters into a vector.
pub fn chars_vec(s: &str) -> (v: Vec<char>)
    ensures
        v@ == s@,
{
    let n = s.unicode_len();
    let mut v: Vec<char> = Vec::new();
    let mut i: usize = 0;
    while i < n
        invariant
            0 <= i <= n,
            n == s@.len(),
            v@ == s@.subrange(0, i as int),
        decreases n - i,
    {
        let c = s.get_char(i);
        v.push(c);
        i = i + 1;
        proof {
            assert(v@ =~= s@.subrange(0, i as int));
        }
    }
    proof {
        assert(v@ =~= s@);
    }
    v
}

/// Relies on String::push: appends one character to the string.
#[verifier::external_body]
pub fn push_char(s: &mut String, c: char)
    ensures
        final(s)@ == old(s)@.push(c),
{
    s.push(c)
}

} // verus!
