//! The characters and numbers that the notation is written in.

use crate::pitch::edo12::error::NotationError;
use itertools::Itertools;
use vstd::prelude::*;
use vstd::string::*;

verus! {

/// Whether the character is one of the ten digits.
pub open spec fn is_digit(c: char) -> bool {
    '0' <= c <= '9'
}

/// Whether the character is a letter of the English alphabet.
pub open spec fn is_letter(c: char) -> bool {
    ('a' <= c <= 'z') || ('A' <= c <= 'Z')
}

/// The character with a capital letter of the English alphabet made small.
pub open spec fn lower(c: char) -> char {
    if 'A' <= c <= 'Z' {
        ((c as u8) + 32) as char
    } else {
        c
    }
}

/// The text with its capital letters of the English alphabet made small.
pub open spec fn ascii_lower(s: Seq<char>) -> Seq<char> {
    s.map_values(|c: char| lower(c))
}

/// The number that a digit stands for.
pub open spec fn digit_value(c: char) -> int {
    c as int - '0' as int
}

/// Whether the text holds digits only.
pub open spec fn all_digits(s: Seq<char>) -> bool {
    forall|i: int| 0 <= i < s.len() ==> is_digit(#[trigger] s[i])
}

/// The number that a run of digits stands for in base ten.
pub open spec fn decimal(s: Seq<char>) -> int
    decreases s.len(),
{
    if s.len() == 0 {
        0
    } else {
        10 * decimal(s.drop_last()) + digit_value(s.last())
    }
}

/// The number that a text stands for, if it is a number without a sign or
/// with a plus sign: at least one digit, and nothing else.
pub open spec fn unsigned_number(s: Seq<char>) -> Option<int> {
    let digits = if s.len() > 0 && s[0] == '+' {
        s.drop_first()
    } else {
        s
    };
    if digits.len() > 0 && all_digits(digits) {
        Some(decimal(digits))
    } else {
        None
    }
}

/// The number that a text stands for, if it is a number with or without a
/// sign.
pub open spec fn signed_number(s: Seq<char>) -> Option<int> {
    if s.len() > 0 && s[0] == '-' {
        let digits = s.drop_first();
        if digits.len() > 0 && all_digits(digits) {
            Some(-decimal(digits))
        } else {
            None
        }
    } else {
        unsigned_number(s)
    }
}

/// What reading a text as an `i8` gives: `InvalidCharacter` where the text
/// is no number, `IntegerOverflow` where the number does not fit.
pub open spec fn i8_of(s: Seq<char>) -> Result<i8, NotationError> {
    match signed_number(s) {
        None => Err(NotationError::InvalidCharacter),
        Some(v) => if -128 <= v <= 127 {
            Ok(v as i8)
        } else {
            Err(NotationError::IntegerOverflow)
        },
    }
}

/// What reading a text as a `u8` gives: `InvalidCharacter` where the text
/// is no number without a minus sign, `IntegerOverflow` where the number
/// does not fit.
pub open spec fn u8_of(s: Seq<char>) -> Result<u8, NotationError> {
    match unsigned_number(s) {
        None => Err(NotationError::InvalidCharacter),
        Some(v) => if v <= 255 {
            Ok(v as u8)
        } else {
            Err(NotationError::IntegerOverflow)
        },
    }
}

/// How often the character stands in the text.
pub open spec fn count(s: Seq<char>, c: char) -> int
    decreases s.len(),
{
    if s.len() == 0 {
        0
    } else {
        count(s.drop_last(), c) + if s.last() == c {
            1int
        } else {
            0int
        }
    }
}

/// Whether the text holds plus and minus signs only.
pub open spec fn all_signs(s: Seq<char>) -> bool {
    forall|i: int| 0 <= i < s.len() ==> (#[trigger] s[i]) == '+' || s[i] == '-'
}

/// Whether the text holds the character `c` only.
pub open spec fn all_same(s: Seq<char>, c: char) -> bool {
    forall|i: int| 0 <= i < s.len() ==> (#[trigger] s[i]) == c
}

/// How many letters the text begins with.
pub open spec fn letters_len(s: Seq<char>) -> int
    decreases s.len(),
{
    if s.len() == 0 {
        0
    } else if !is_letter(s[0]) {
        0
    } else {
        1 + letters_len(s.drop_first())
    }
}

/// The place of the first `c` in the text, or the length of the text
/// where it holds none.
pub open spec fn index_of(s: Seq<char>, c: char) -> int
    decreases s.len(),
{
    if s.len() == 0 {
        0
    } else if s[0] == c {
        0
    } else {
        1 + index_of(s.drop_first(), c)
    }
}

/// The place at which the digits at the end of the text begin: the
/// length of the text where it does not end in a digit.
pub open spec fn digits_start(s: Seq<char>) -> int
    decreases s.len(),
{
    if s.len() == 0 {
        0
    } else if is_digit(s.last()) {
        digits_start(s.drop_last())
    } else {
        s.len() as int
    }
}

/// A number never gets smaller when a digit is written behind it.
pub proof fn lemma_decimal_bounds(s: Seq<char>)
    requires
        all_digits(s),
    ensures
        decimal(s) >= 0,
        s.len() > 0 ==> decimal(s) >= decimal(s.drop_last()),
    decreases s.len(),
{
    if s.len() > 0 {
        lemma_decimal_bounds(s.drop_last());
    }
}

/// Whether the character is one of the ten digits.
pub fn is_digit_char(c: char) -> (b: bool)
    ensures
        b == is_digit(c),
{
    '0' <= c && c <= '9'
}

/// Whether the character is a letter of the English alphabet.
pub fn is_letter_char(c: char) -> (b: bool)
    ensures
        b == is_letter(c),
{
    ('a' <= c && c <= 'z') || ('A' <= c && c <= 'Z')
}

/// How many letters the text begins with.
pub fn leading_letters(chars: &Vec<char>) -> (k: usize)
    ensures
        k == letters_len(chars@),
        k <= chars.len(),
{
    let n = chars.len();
    let mut i: usize = 0;
    proof {
        assert(chars@.subrange(0, n as int) == chars@);
    }
    while i < n && is_letter_char(chars[i])
        invariant
            i <= n,
            n == chars.len(),
            letters_len(chars@) == i + letters_len(chars@.subrange(i as int, n as int)),
        decreases n - i,
    {
        proof {
            let rest = chars@.subrange(i as int, n as int);
            assert(rest.drop_first() == chars@.subrange(i + 1, n as int));
        }
        i += 1;
    }
    i
}

/// The place of the first `c` in the text, or the length of the text
/// where it holds none.
pub fn find_char(chars: &Vec<char>, c: char) -> (k: usize)
    ensures
        k == index_of(chars@, c),
        k <= chars.len(),
        k < chars.len() ==> chars@[k as int] == c,
{
    let n = chars.len();
    let mut i: usize = 0;
    proof {
        assert(chars@.subrange(0, n as int) == chars@);
    }
    while i < n && chars[i] != c
        invariant
            i <= n,
            n == chars.len(),
            index_of(chars@, c) == i + index_of(chars@.subrange(i as int, n as int), c),
        decreases n - i,
    {
        proof {
            let rest = chars@.subrange(i as int, n as int);
            assert(rest.drop_first() == chars@.subrange(i + 1, n as int));
        }
        i += 1;
    }
    i
}

/// The place at which the digits at the end of the text begin.
pub fn trailing_digits(chars: &Vec<char>) -> (k: usize)
    ensures
        k == digits_start(chars@),
        k <= chars.len(),
{
    let n = chars.len();
    let mut i: usize = n;
    proof {
        assert(chars@.subrange(0, n as int) == chars@);
    }
    while i > 0 && is_digit_char(chars[i - 1])
        invariant
            i <= n,
            n == chars.len(),
            digits_start(chars@) == digits_start(chars@.subrange(0, i as int)),
        decreases i,
    {
        proof {
            let front = chars@.subrange(0, i as int);
            assert(front.drop_last() == chars@.subrange(0, i - 1));
        }
        i -= 1;
    }
    i
}

/// The characters of a text.
pub fn chars_of(s: &str) -> (chars: Vec<char>)
    ensures
        chars@ == s@,
{
    let mut chars: Vec<char> = Vec::new();
    for c in it: s.chars()
        invariant
            chars@ == it.seq().take(it.index()),
    {
        chars.push(c);
    }
    chars
}

/// `uncased::eq`: whether two texts are equal once the capital letters
/// of the English alphabet in them are made small.
#[verifier::external_body]
pub(crate) fn eq_uncased(a: &str, b: &str) -> (equal: bool)
    ensures
        equal == (ascii_lower(a@) == ascii_lower(b@)),
{
    uncased::eq(a, b)
}

/// `Itertools::dropping_back` of `itertools`, on the characters of a
/// text: the text without its last `n` characters, and the empty text
/// where it has no more than `n`.
#[verifier::external_body]
pub(crate) fn drop_back(s: &str, n: usize) -> (front: &str)
    ensures
        n <= s@.len() ==> front@ == s@.subrange(0, s@.len() - n),
        n > s@.len() ==> front@ == Seq::<char>::empty(),
{
    s.chars().dropping_back(n).as_str()
}

/// The number that the digits from `start` on stand for, as far as it is
/// no more than 255.
fn read_digits(chars: &Vec<char>, start: usize) -> (r: Result<u16, NotationError>)
    requires
        start <= chars.len(),
    ensures
        ({
            let digits = chars@.subrange(start as int, chars.len() as int);
            if digits.len() == 0 || !all_digits(digits) {
                r == Err::<u16, NotationError>(NotationError::InvalidCharacter)
            } else if decimal(digits) > 255 {
                r == Err::<u16, NotationError>(NotationError::IntegerOverflow)
            } else {
                r == Ok::<u16, NotationError>(decimal(digits) as u16)
            }
        }),
{
    let n = chars.len();
    if start == n {
        return Err(NotationError::InvalidCharacter);
    }
    let mut value: u16 = 0;
    let mut over = false;
    let mut i = start;
    while i < n
        invariant
            start <= i <= n,
            n == chars.len(),
            all_digits(chars@.subrange(start as int, i as int)),
            !over ==> value == decimal(chars@.subrange(start as int, i as int)) && value <= 255,
            over ==> decimal(chars@.subrange(start as int, i as int)) > 255,
        decreases n - i,
    {
        let c = chars[i];
        let ghost before = chars@.subrange(start as int, i as int);
        let ghost after = chars@.subrange(start as int, i + 1);
        proof {
            assert(after.drop_last() == before);
            assert(after.last() == c);
        }
        if !is_digit_char(c) {
            proof {
                let digits = chars@.subrange(start as int, n as int);
                assert(digits[i - start] == c);
            }
            return Err(NotationError::InvalidCharacter);
        }
        proof {
            assert forall|j: int| 0 <= j < after.len() implies is_digit(#[trigger] after[j]) by {
                if j < before.len() {
                    assert(after[j] == before[j]);
                }
            }
            lemma_decimal_bounds(after);
        }
        if !over {
            value = value * 10 + (c as u16 - '0' as u16);
            if value > 255 {
                over = true;
            }
        }
        i += 1;
    }
    proof {
        assert(chars@.subrange(start as int, i as int) == chars@.subrange(
            start as int,
            chars.len() as int,
        ));
    }
    if over {
        Err(NotationError::IntegerOverflow)
    } else {
        Ok(value)
    }
}

/// Reads a number with or without a sign that fits an `i8`.
pub fn parse_i8(s: &str) -> (r: Result<i8, NotationError>)
    ensures
        r == i8_of(s@),
{
    let chars = chars_of(s);
    let n = chars.len();
    let negative = n > 0 && chars[0] == '-';
    let signed = n > 0 && (chars[0] == '-' || chars[0] == '+');
    let start: usize = if signed {
        1
    } else {
        0
    };
    proof {
        let digits = chars@.subrange(start as int, n as int);
        if signed {
            assert(digits == s@.drop_first());
        } else {
            assert(digits == s@);
        }
        if all_digits(digits) {
            lemma_decimal_bounds(digits);
        }
    }
    match read_digits(&chars, start) {
        Err(e) => Err(e),
        Ok(v) => if negative {
            if v > 128 {
                Err(NotationError::IntegerOverflow)
            } else {
                Ok((-(v as i16)) as i8)
            }
        } else {
            if v > 127 {
                Err(NotationError::IntegerOverflow)
            } else {
                Ok(v as i8)
            }
        },
    }
}

/// Reads a number without a minus sign that fits a `u8`.
pub fn parse_u8(s: &str) -> (r: Result<u8, NotationError>)
    ensures
        r == u8_of(s@),
{
    let chars = chars_of(s);
    let n = chars.len();
    let signed = n > 0 && chars[0] == '+';
    let start: usize = if signed {
        1
    } else {
        0
    };
    proof {
        let digits = chars@.subrange(start as int, n as int);
        if signed {
            assert(digits == s@.drop_first());
        } else {
            assert(digits == s@);
        }
        if all_digits(digits) {
            lemma_decimal_bounds(digits);
        }
    }
    match read_digits(&chars, start) {
        Err(e) => Err(e),
        Ok(v) => Ok(v as u8),
    }
}

} // verus!
