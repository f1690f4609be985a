//! The shape of a floating-point literal: which texts stand for a number.

use crate::text::{chars_of, is_plain, is_plain_text};
use vstd::prelude::*;

verus! {

/// ASCII decimal digits.
pub open spec fn is_digit(c: char) -> bool {
    '0' <= c <= '9'
}

/// A leading plus or minus.
pub open spec fn is_sign(c: char) -> bool {
    c == '+' || c == '-'
}

/// `c` with an ASCII capital turned into its small letter.
pub open spec fn lower(c: char) -> char {
    if 'A' <= c <= 'Z' {
        ((c as u8 + 32) as u8) as char
    } else {
        c
    }
}

/// The index just past the run of digits that starts at `from`.
pub open spec fn digits_end(s: Seq<char>, from: int) -> int
    decreases s.len() - from,
{
    if 0 <= from < s.len() && is_digit(s[from]) {
        digits_end(s, from + 1)
    } else {
        from
    }
}

/// Whether `s[from..]` is `word`, letter case aside. `word` is in small letters.
pub open spec fn is_word_at(s: Seq<char>, from: int, word: Seq<char>) -> bool {
    &&& s.len() - from == word.len()
    &&& forall|i: int| 0 <= i < word.len() ==> lower(#[trigger] s[from + i]) == word[i]
}

/// Whether `s[from..]` is an exponent: `e` or `E`, an optional sign, digits.
pub open spec fn is_exponent_at(s: Seq<char>, from: int) -> bool {
    &&& from + 1 < s.len()
    &&& (s[from] == 'e' || s[from] == 'E')
    &&& {
        let first = if is_sign(s[from + 1]) {
            from + 2
        } else {
            from + 1
        };
        first < s.len() && digits_end(s, first) == s.len()
    }
}

/// Whether `s[from..]` is a decimal number: digits with at most one point
/// among them, at least one digit in all, then an optional exponent.
pub open spec fn is_number_at(s: Seq<char>, from: int) -> bool {
    let whole_end = digits_end(s, from);
    let has_point = whole_end < s.len() && s[whole_end] == '.';
    let mantissa_end = if has_point {
        digits_end(s, whole_end + 1)
    } else {
        whole_end
    };
    let digits = if has_point {
        mantissa_end - from - 1
    } else {
        mantissa_end - from
    };
    &&& digits >= 1
    &&& (mantissa_end == s.len() || is_exponent_at(s, mantissa_end))
}

/// The texts that Rust reads as a floating-point number: an optional sign,
/// then `inf`, `infinity` or `nan` in any letter case, or a decimal number.
pub open spec fn is_float_literal(s: Seq<char>) -> bool {
    let from: int = if s.len() > 0 && is_sign(s[0]) {
        1
    } else {
        0
    };
    ||| is_word_at(s, from, "inf"@)
    ||| is_word_at(s, from, "infinity"@)
    ||| is_word_at(s, from, "nan"@)
    ||| is_number_at(s, from)
}

fn is_decimal_digit(c: char) -> (b: bool)
    ensures
        b == is_digit(c),
{
    '0' <= c && c <= '9'
}

fn to_lower(c: char) -> (l: char)
    ensures
        l == lower(c),
{
    if 'A' <= c && c <= 'Z' {
        ((c as u8) + 32) as char
    } else {
        c
    }
}

fn scan_digits(v: &Vec<char>, from: usize) -> (end: usize)
    requires
        from <= v@.len(),
    ensures
        end == digits_end(v@, from as int),
        from <= end <= v@.len(),
{
    let mut i: usize = from;
    while i < v.len() && is_decimal_digit(v[i])
        invariant
            from <= i <= v@.len(),
            digits_end(v@, from as int) == digits_end(v@, i as int),
        decreases v@.len() - i,
    {
        i += 1;
    }
    i
}

fn word_at(v: &Vec<char>, from: usize, word: &str) -> (b: bool)
    requires
        from <= v@.len(),
    ensures
        b == is_word_at(v@, from as int, word@),
{
    let w = chars_of(word);
    if v.len() - from != w.len() {
        return false;
    }
    let mut i: usize = 0;
    while i < w.len()
        invariant
            i <= w@.len(),
            w@ == word@,
            from + w@.len() == v@.len() <= usize::MAX,
            forall|j: int| 0 <= j < i ==> lower(#[trigger] v@[from + j]) == w@[j],
        decreases w@.len() - i,
    {
        if to_lower(v[from + i]) != w[i] {
            assert(lower(v@[from + i]) != w@[i as int]);
            return false;
        }
        i += 1;
    }
    true
}

fn exponent_at(v: &Vec<char>, from: usize) -> (b: bool)
    requires
        from <= v@.len(),
    ensures
        b == is_exponent_at(v@, from as int),
{
    if v.len() - from < 2 {
        return false;
    }
    if v[from] != 'e' && v[from] != 'E' {
        return false;
    }
    let first: usize = if v[from + 1] == '+' || v[from + 1] == '-' {
        from + 2
    } else {
        from + 1
    };
    first < v.len() && scan_digits(v, first) == v.len()
}

fn number_at(v: &Vec<char>, from: usize) -> (b: bool)
    requires
        from <= v@.len(),
    ensures
        b == is_number_at(v@, from as int),
{
    let whole_end = scan_digits(v, from);
    let has_point = whole_end < v.len() && v[whole_end] == '.';
    let mantissa_end: usize = if has_point {
        scan_digits(v, whole_end + 1)
    } else {
        whole_end
    };
    let digits: usize = if has_point {
        mantissa_end - from - 1
    } else {
        mantissa_end - from
    };
    digits >= 1 && (mantissa_end == v.len() || exponent_at(v, mantissa_end))
}

/// Whether `v` has the shape of a floating-point literal.
pub fn is_float_text(v: &Vec<char>) -> (b: bool)
    ensures
        b == is_float_literal(v@),
{
    let from: usize = if v.len() > 0 && (v[0] == '+' || v[0] == '-') {
        1
    } else {
        0
    };
    word_at(v, from, "inf") || word_at(v, from, "infinity") || word_at(v, from, "nan")
        || number_at(v, from)
}

proof fn lemma_digit_run(s: Seq<char>, from: int)
    requires
        0 <= from <= s.len(),
    ensures
        from <= digits_end(s, from) <= s.len(),
        forall|i: int| from <= i < digits_end(s, from) ==> is_digit(#[trigger] s[i]),
    decreases s.len() - from,
{
    if from < s.len() && is_digit(s[from]) {
        lemma_digit_run(s, from + 1);
    }
}

proof fn lemma_word_is_plain(s: Seq<char>, from: int, word: Seq<char>)
    requires
        0 <= from,
        is_word_at(s, from, word),
        forall|i: int| 0 <= i < word.len() ==> 'a' <= #[trigger] word[i] <= 'z',
    ensures
        forall|i: int| from <= i < s.len() ==> is_plain(#[trigger] s[i]),
{
    assert forall|i: int| from <= i < s.len() implies is_plain(#[trigger] s[i]) by {
        let k = i - from;
        assert(lower(s[from + k]) == word[k]);
    }
}

/// A floating-point literal is a plain text.
pub proof fn lemma_float_literal_is_plain(s: Seq<char>)
    requires
        is_float_literal(s),
    ensures
        is_plain_text(s),
{
    reveal_strlit("inf");
    reveal_strlit("infinity");
    reveal_strlit("nan");
    let from: int = if s.len() > 0 && is_sign(s[0]) {
        1
    } else {
        0
    };
    if is_word_at(s, from, "inf"@) {
        lemma_word_is_plain(s, from, "inf"@);
    } else if is_word_at(s, from, "infinity"@) {
        lemma_word_is_plain(s, from, "infinity"@);
    } else if is_word_at(s, from, "nan"@) {
        lemma_word_is_plain(s, from, "nan"@);
    } else {
        lemma_digit_run(s, from);
        let whole_end = digits_end(s, from);
        if whole_end < s.len() && s[whole_end] == '.' {
            lemma_digit_run(s, whole_end + 1);
        }
        let mantissa_end = if whole_end < s.len() && s[whole_end] == '.' {
            digits_end(s, whole_end + 1)
        } else {
            whole_end
        };
        if mantissa_end < s.len() {
            let first = if is_sign(s[mantissa_end + 1]) {
                mantissa_end + 2
            } else {
                mantissa_end + 1
            };
            lemma_digit_run(s, first);
        }
        assert forall|i: int| 0 <= i < s.len() implies is_plain(#[trigger] s[i]) by {
            if i < from {
            } else if i < whole_end {
                assert(is_digit(s[i]));
            } else if i < mantissa_end {
                if i > whole_end {
                    assert(is_digit(s[i]));
                }
            } else if i == mantissa_end {
            } else if i == mantissa_end + 1 {
                if !is_sign(s[i]) {
                    assert(is_digit(s[i]));
                }
            } else {
                assert(is_digit(s[i]));
            }
        }
    }
}

} // verus!
