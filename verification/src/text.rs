//! Verified text helpers: decimal rendering of integers, decimal parsing,
//! and ASCII-case-insensitive comparison of strings.

use vstd::prelude::*;

verus! {

/// The ten decimal digit characters, indexed by digit value.
pub const DEC_DIGITS: [char; 10] = ['0', '1', '2', '3', '4', '5', '6', '7', '8', '9'];

/// The decimal rendering of a non-negative integer, most significant digit
/// first, with no leading zeros (a single `'0'` for zero).
pub open spec fn spec_u64_dec(n: nat) -> Seq<char>
    decreases n,
{
    if n < 10 {
        seq![DEC_DIGITS[n as int]]
    } else {
        spec_u64_dec(n / 10) + seq![DEC_DIGITS[(n % 10) as int]]
    }
}

/// The decimal rendering of an integer: a `'-'` sign for negative values,
/// then the rendering of the magnitude.
pub open spec fn spec_i64_dec(n: int) -> Seq<char> {
    if n < 0 {
        seq!['-'] + spec_u64_dec((-n) as nat)
    } else {
        spec_u64_dec(n as nat)
    }
}

/// Relies on `String::push`: appends the one character to the end of the string.
#[verifier::external_body]
fn push_char(s: &mut String, c: char)
    ensures
        final(s)@ == old(s)@.push(c),
{
    s.push(c);
}

/// Renders a `u64` in decimal, exactly as `spec_u64_dec` describes.
pub fn u64_to_dec(n: u64) -> (s: String)
    ensures
        s@ == spec_u64_dec(n as nat),
{
    let mut digits: Vec<char> = Vec::new();
    digits.push(DEC_DIGITS[(n % 10) as usize]);
    let mut m: u64 = n / 10;
    proof {
        assert(digits@.reverse() =~= seq![DEC_DIGITS[(n % 10) as int]]);
    }
    while m > 0
        invariant
            m > 0 ==> spec_u64_dec(n as nat) == spec_u64_dec(m as nat) + digits@.reverse(),
            m == 0 ==> spec_u64_dec(n as nat) == digits@.reverse(),
        decreases m,
    {
        let ghost before = digits@;
        digits.push(DEC_DIGITS[(m % 10) as usize]);
        proof {
            assert(digits@.reverse() =~= seq![DEC_DIGITS[(m % 10) as int]] + before.reverse());
            if m >= 10 {
                assert(spec_u64_dec(m as nat) == spec_u64_dec((m as nat) / 10) + seq![
                    DEC_DIGITS[(m % 10) as int],
                ]);
                assert(spec_u64_dec((m as nat) / 10) + seq![DEC_DIGITS[(m % 10) as int]]
                    + before.reverse() =~= spec_u64_dec((m as nat) / 10) + digits@.reverse());
            }
        }
        m = m / 10;
    }
    let mut s = String::new();
    let count = digits.len();
    let mut i: usize = 0;
    while i < count
        invariant
            count == digits@.len(),
            i <= count,
            s@ =~= digits@.reverse().take(i as int),
        decreases count - i,
    {
        push_char(&mut s, digits[count - 1 - i]);
        i = i + 1;
        proof {
            assert(s@ =~= digits@.reverse().take(i as int));
        }
    }
    proof {
        assert(s@ =~= digits@.reverse());
    }
    s
}

/// Renders an `i64` in decimal, exactly as `spec_i64_dec` describes.
pub fn i64_to_dec(n: i64) -> (s: String)
    ensures
        s@ == spec_i64_dec(n as int),
{
    if n >= 0 {
        let s = u64_to_dec(n as u64);
        s
    } else {
        let magnitude: u64 = if n == i64::MIN {
            9223372036854775808u64
        } else {
            (-n) as u64
        };
        let mut s = String::new();
        push_char(&mut s, '-');
        let tail = u64_to_dec(magnitude);
        let r = s.concat(tail.as_str());
        proof {
            assert(r@ =~= seq!['-'] + spec_u64_dec(magnitude as nat));
        }
        r
    }
}

/// Whether `c` is a decimal digit character.
pub open spec fn is_dec_digit(c: char) -> bool {
    48 <= c as u32 <= 57
}

/// The numeric value of a decimal digit character.
pub open spec fn digit_val(c: char) -> int {
    c as u32 - 48
}

/// The value of a sequence of decimal digit characters, most significant first.
pub open spec fn spec_digits_val(s: Seq<char>) -> int
    decreases s.len(),
{
    if s.len() == 0 {
        0
    } else {
        spec_digits_val(s.drop_last()) * 10 + digit_val(s.last())
    }
}

/// Whether every character of `s` is a decimal digit.
pub open spec fn all_dec_digits(s: Seq<char>) -> bool {
    forall|i: int| 0 <= i < s.len() ==> is_dec_digit(#[trigger] s[i])
}

/// What `parse_i64` returns: an optional sign, then at least one decimal
/// digit, and a value within the range of `i64`; anything else is rejected.
pub open spec fn spec_parse_i64(s: Seq<char>) -> Option<i64> {
    let negative = s.len() > 0 && s[0] == '-';
    let digits = if s.len() > 0 && (s[0] == '-' || s[0] == '+') {
        s.subrange(1, s.len() as int)
    } else {
        s
    };
    if digits.len() == 0 || !all_dec_digits(digits) {
        None
    } else {
        let magnitude = spec_digits_val(digits);
        let value = if negative {
            -magnitude
        } else {
            magnitude
        };
        if i64::MIN <= value <= i64::MAX {
            Some(value as i64)
        } else {
            None
        }
    }
}

proof fn lemma_digits_val_nonneg(s: Seq<char>)
    requires
        all_dec_digits(s),
    ensures
        spec_digits_val(s) >= 0,
    decreases s.len(),
{
    if s.len() > 0 {
        assert(all_dec_digits(s.drop_last()));
        lemma_digits_val_nonneg(s.drop_last());
    }
}

/// The value of a digit sequence never falls when more digits are appended.
proof fn lemma_digits_val_prefix_le(s: Seq<char>, i: int)
    requires
        all_dec_digits(s),
        0 <= i <= s.len(),
    ensures
        spec_digits_val(s.take(i)) <= spec_digits_val(s),
    decreases s.len() - i,
{
    if i < s.len() {
        let t = s.take(i + 1);
        assert(all_dec_digits(t));
        assert(t.drop_last() =~= s.take(i));
        lemma_digits_val_nonneg(s.take(i));
        assert(spec_digits_val(t) == spec_digits_val(s.take(i)) * 10 + digit_val(t.last()));
        lemma_digits_val_prefix_le(s, i + 1);
        assert(s.take(s.len() as int) =~= s);
    } else {
        assert(s.take(i) =~= s);
    }
}

/// Parses a decimal `i64`: an optional `+` or `-` sign, then at least one
/// digit, with the value in range; exactly as `spec_parse_i64` describes.
#[verifier::loop_isolation(false)]
pub fn parse_i64(s: &str) -> (r: Option<i64>)
    ensures
        r == spec_parse_i64(s@),
{
    let len: usize = s.unicode_len();
    if len == 0 {
        return None;
    }
    let first = s.get_char(0);
    let negative = first == '-';
    let start: usize = if first == '-' || first == '+' {
        1
    } else {
        0
    };
    let ghost digits = if s@[0] == '-' || s@[0] == '+' {
        s@.subrange(1, s@.len() as int)
    } else {
        s@
    };
    if len == start {
        return None;
    }
    proof {
        assert(s@.subrange(0, s@.len() as int) =~= s@);
    }
    let mut acc: u64 = 0;
    let mut i: usize = start;
    while i < len
        invariant
            start <= i <= len,
            len == s@.len(),
            start == 1 ==> (s@[0] == '-' || s@[0] == '+'),
            start == 0 ==> !(s@[0] == '-' || s@[0] == '+'),
            digits == s@.subrange(start as int, len as int),
            all_dec_digits(digits.take(i - start)),
            acc == spec_digits_val(digits.take(i - start)),
        decreases len - i,
    {
        let c = s.get_char(i);
        let cv: u32 = c as u32;
        proof {
            assert(digits.take(i + 1 - start).drop_last() =~= digits.take(i - start));
            assert(digits.take(i + 1 - start).last() == s@[i as int]);
        }
        if cv < 48 || cv > 57 {
            proof {
                assert(!is_dec_digit(digits[i - start]));
            }
            return None;
        }
        let d: u64 = (cv - 48) as u64;
        if acc > (u64::MAX - d) / 10 {
            // The value read so far already exceeds any `i64`; more digits
            // can only keep it out of range.
            proof {
                let upto = digits.take(i + 1 - start);
                assert(all_dec_digits(upto));
                assert(spec_digits_val(upto) == acc * 10 + d);
                let q = ((u64::MAX - d) / 10) as int;
                assert(q * 10 + ((u64::MAX - d) % 10) == u64::MAX - d);
                assert(acc * 10 + d > u64::MAX);
                if all_dec_digits(digits) {
                    lemma_digits_val_prefix_le(digits, i + 1 - start);
                }
            }
            return None;
        }
        acc = acc * 10 + d;
        i = i + 1;
    }
    proof {
        assert(digits.take(i - start) =~= digits);
    }
    if negative {
        if acc == 9223372036854775808u64 {
            Some(i64::MIN)
        } else if acc <= 9223372036854775807u64 {
            Some(-(acc as i64))
        } else {
            None
        }
    } else {
        if acc <= 9223372036854775807u64 {
            Some(acc as i64)
        } else {
            None
        }
    }
}

/// Whether two characters are the same letter up to ASCII case.
pub open spec fn chars_match_nocase(a: char, b: char) -> bool {
    ||| a == b
    ||| (65 <= a as u32 <= 90 && a as u32 + 32 == b as u32)
    ||| (65 <= b as u32 <= 90 && b as u32 + 32 == a as u32)
}

/// Whether two strings are equal up to ASCII case, character by character.
pub open spec fn spec_eq_ignore_ascii_case(a: Seq<char>, b: Seq<char>) -> bool {
    a.len() == b.len() && forall|i: int|
        0 <= i < a.len() ==> chars_match_nocase(#[trigger] a[i], b[i])
}

/// Compares two strings for equality up to ASCII case, as the identity
/// re-validation of the terminator requires.
pub fn eq_ignore_ascii_case(a: &str, b: &str) -> (r: bool)
    ensures
        r == spec_eq_ignore_ascii_case(a@, b@),
{
    let a_len: usize = a.unicode_len();
    let b_len: usize = b.unicode_len();
    if a_len != b_len {
        return false;
    }
    let mut i: usize = 0;
    while i < a_len
        invariant
            0 <= i <= a_len,
            a_len == a@.len(),
            a_len == b@.len(),
            forall|j: int| 0 <= j < i ==> chars_match_nocase(#[trigger] a@[j], b@[j]),
        decreases a_len - i,
    {
        let ca: u32 = a.get_char(i) as u32;
        let cb: u32 = b.get_char(i) as u32;
        let same = if ca == cb {
            true
        } else if 65 <= ca && ca <= 90 && ca + 32 == cb {
            true
        } else if 65 <= cb && cb <= 90 && cb + 32 == ca {
            true
        } else {
            false
        };
        if !same {
            return false;
        }
        i = i + 1;
    }
    true
}

/// The joining of two path fragments with a single separator; an empty left
/// fragment contributes nothing.
pub open spec fn spec_join_path(a: Seq<char>, b: Seq<char>) -> Seq<char> {
    if a.len() == 0 {
        b
    } else {
        a + seq!['/'] + b
    }
}

/// Joins two path fragments with a `/` separator, exactly as `spec_join_path`
/// describes.
pub fn join_path(a: &str, b: &str) -> (r: String)
    ensures
        r@ == spec_join_path(a@, b@),
{
    if a.is_empty() {
        let mut r = String::new();
        r.append(b);
        proof {
            assert(r@ =~= b@);
        }
        r
    } else {
        let mut r = String::new();
        r.append(a);
        r.append("/");
        r.append(b);
        proof {
            reveal_strlit("/");
            assert(r@ =~= a@ + seq!['/'] + b@);
        }
        r
    }
}

} // verus!
