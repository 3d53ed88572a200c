//! Small verified helpers over strings.

use vstd::prelude::*;

verus! {

/// Compares two string slices character by character.
pub fn str_eq(a: &str, b: &str) -> (r: bool)
    ensures
        r == (a@ == b@),
{
    let a_len = a.unicode_len();
    let b_len = b.unicode_len();
    if a_len != b_len {
        proof {
            assert(a@.len() != b@.len());
        }
        return false;
    }
    let mut i: usize = 0;
    while i < a_len
        invariant
            a_len == a@.len(),
            b_len == b@.len(),
            a_len == b_len,
            i <= a_len,
            forall|j: int| 0 <= j < i ==> a@[j] == b@[j],
        decreases a_len - i,
    {
        if a.get_char(i) != b.get_char(i) {
            proof {
                assert(a@[i as int] != b@[i as int]);
            }
            return false;
        }
        i = i + 1;
    }
    proof {
        assert(a@ =~= b@);
    }
    true
}

/// Whether `prefix` is a prefix of `s`, over character sequences.
pub open spec fn spec_starts_with(s: Seq<char>, prefix: Seq<char>) -> bool {
    prefix.len() <= s.len() && s.subrange(0, prefix.len() as int) == prefix
}

/// Checks whether `s` starts with `prefix`, character by character.
pub fn str_starts_with(s: &str, prefix: &str) -> (r: bool)
    ensures
        r == spec_starts_with(s@, prefix@),
{
    let s_len = s.unicode_len();
    let p_len = prefix.unicode_len();
    if p_len > s_len {
        return false;
    }
    let mut i: usize = 0;
    while i < p_len
        invariant
            s_len == s@.len(),
            p_len == prefix@.len(),
            p_len <= s_len,
            i <= p_len,
            forall|j: int| 0 <= j < i ==> s@[j] == prefix@[j],
        decreases p_len - i,
    {
        if s.get_char(i) != prefix.get_char(i) {
            proof {
                assert(s@[i as int] != prefix@[i as int]);
                assert(s@.subrange(0, p_len as int)[i as int] == s@[i as int]);
            }
            return false;
        }
        i = i + 1;
    }
    proof {
        assert(s@.subrange(0, p_len as int) =~= prefix@);
    }
    true
}

/// Whether `suffix` is a suffix of `s`, over character sequences.
pub open spec fn spec_ends_with(s: Seq<char>, suffix: Seq<char>) -> bool {
    suffix.len() <= s.len() && s.subrange(s.len() - suffix.len(), s.len() as int) == suffix
}

/// Checks whether `s` ends with `suffix`, character by character.
pub fn str_ends_with(s: &str, suffix: &str) -> (r: bool)
    ensures
        r == spec_ends_with(s@, suffix@),
{
    let s_len = s.unicode_len();
    let x_len = suffix.unicode_len();
    if x_len > s_len {
        return false;
    }
    let offset = s_len - x_len;
    let mut i: usize = 0;
    while i < x_len
        invariant
            s_len == s@.len(),
            x_len == suffix@.len(),
            x_len <= s_len,
            offset == s_len - x_len,
            i <= x_len,
            forall|j: int| 0 <= j < i ==> s@[offset + j] == suffix@[j],
        decreases x_len - i,
    {
        if s.get_char(offset + i) != suffix.get_char(i) {
            proof {
                assert(s@.subrange(s@.len() - suffix@.len(), s@.len() as int)[i as int] == s@[
                    offset + i
                ]);
            }
            return false;
        }
        i = i + 1;
    }
    proof {
        assert(s@.subrange(s@.len() - suffix@.len(), s@.len() as int) =~= suffix@);
    }
    true
}

/// The character for one decimal digit.
pub open spec fn spec_digit_char(d: int) -> char {
    ((48 + d) as u8) as char
}

/// The decimal representation of a number, most significant digit first.
pub open spec fn spec_decimal_digits(n: int) -> Seq<char>
    decreases n,
{
    if n < 10 {
        seq![spec_digit_char(n)]
    } else {
        spec_decimal_digits(n / 10).push(spec_digit_char(n % 10))
    }
}

/// The one-character string for a decimal digit.
fn digit_str(d: u64) -> (s: &'static str)
    requires
        0 <= d < 10,
    ensures
        s@ =~= seq![spec_digit_char(d as int)],
{
    proof {
        reveal_strlit("0");
        reveal_strlit("1");
        reveal_strlit("2");
        reveal_strlit("3");
        reveal_strlit("4");
        reveal_strlit("5");
        reveal_strlit("6");
        reveal_strlit("7");
        reveal_strlit("8");
        reveal_strlit("9");
    }
    if d == 0 {
        "0"
    } else if d == 1 {
        "1"
    } else if d == 2 {
        "2"
    } else if d == 3 {
        "3"
    } else if d == 4 {
        "4"
    } else if d == 5 {
        "5"
    } else if d == 6 {
        "6"
    } else if d == 7 {
        "7"
    } else if d == 8 {
        "8"
    } else {
        "9"
    }
}

/// Renders a number in decimal.
pub fn decimal_string(n: u64) -> (s: String)
    ensures
        s@ == spec_decimal_digits(n as int),
{
    let mut rest = n;
    let mut low_digits: Vec<u64> = Vec::new();
    while rest >= 10
        invariant
            forall|j: int| 0 <= j < low_digits@.len() ==> 0 <= #[trigger] low_digits@[j] < 10,
            spec_decimal_digits(n as int) =~= spec_decimal_digits(rest as int)
                + reversed_digit_chars(low_digits@),
        decreases rest,
    {
        let d = rest % 10;
        let ghost prev = low_digits@;
        low_digits.push(d);
        proof {
            assert(low_digits@.drop_last() =~= prev);
            assert(low_digits@.last() == d);
            assert(reversed_digit_chars(low_digits@) =~= seq![
                spec_digit_char(d as int),
            ] + reversed_digit_chars(prev));
            assert(spec_decimal_digits(rest as int) =~= spec_decimal_digits((rest / 10) as int)
                + seq![spec_digit_char(d as int)]);
        }
        rest = rest / 10;
    }
    let mut s = String::new();
    s.append(digit_str(rest));
    let mut i = low_digits.len();
    proof {
        assert(low_digits@.subrange(0, i as int) =~= low_digits@);
        assert(s@ =~= spec_decimal_digits(rest as int));
    }
    while i > 0
        invariant
            i <= low_digits@.len(),
            forall|j: int| 0 <= j < low_digits@.len() ==> 0 <= #[trigger] low_digits@[j] < 10,
            spec_decimal_digits(n as int) =~= s@ + reversed_digit_chars(
                low_digits@.subrange(0, i as int),
            ),
        decreases i,
    {
        i = i - 1;
        let d = low_digits[i];
        s.append(digit_str(d));
        proof {
            assert(low_digits@.subrange(0, i + 1).drop_last() =~= low_digits@.subrange(
                0,
                i as int,
            ));
            assert(low_digits@.subrange(0, i + 1).last() == d);
            assert(reversed_digit_chars(low_digits@.subrange(0, i + 1)) =~= seq![
                spec_digit_char(d as int),
            ] + reversed_digit_chars(low_digits@.subrange(0, i as int)));
        }
    }
    proof {
        assert(low_digits@.subrange(0, 0) =~= Seq::<u64>::empty());
        assert(spec_decimal_digits(n as int) =~= s@);
    }
    s
}

/// The characters of a run of low-order digits, read back most recent first.
pub open spec fn reversed_digit_chars(digits: Seq<u64>) -> Seq<char>
    decreases digits.len(),
{
    if digits.len() == 0 {
        Seq::empty()
    } else {
        seq![spec_digit_char(digits.last() as int)] + reversed_digit_chars(digits.drop_last())
    }
}

} // verus!
