//! Character classification: the digit classes, the drop set, and ASCII case.

use vstd::prelude::*;

verus! {

/// True for `'a'` through `'z'`.
pub open spec fn is_ascii_lowercase(c: char) -> bool {
    97 <= c as u32 && c as u32 <= 122
}

/// True for `'A'` through `'Z'`.
pub open spec fn is_ascii_uppercase(c: char) -> bool {
    65 <= c as u32 && c as u32 <= 90
}

/// True for the ASCII letters, either case.
pub open spec fn is_ascii_letter(c: char) -> bool {
    is_ascii_lowercase(c) || is_ascii_uppercase(c)
}

/// True for `'0'` through `'9'`.
pub open spec fn is_ascii_digit(c: char) -> bool {
    48 <= c as u32 && c as u32 <= 57
}

/// The Soundex digit class of a character: one of `'1'` through `'6'` for
/// the classified consonants, either case, and `'0'` for every other
/// character.
pub open spec fn digit_class(c: char) -> char {
    if c == 'b' || c == 'B' || c == 'f' || c == 'F' || c == 'p' || c == 'P' || c == 'v' || c == 'V' {
        '1'
    } else if c == 'c' || c == 'C' || c == 'g' || c == 'G' || c == 'j' || c == 'J' || c == 'k'
        || c == 'K' || c == 'q' || c == 'Q' || c == 's' || c == 'S' || c == 'x' || c == 'X'
        || c == 'z' || c == 'Z' {
        '2'
    } else if c == 'd' || c == 'D' || c == 't' || c == 'T' {
        '3'
    } else if c == 'l' || c == 'L' {
        '4'
    } else if c == 'm' || c == 'M' || c == 'n' || c == 'N' {
        '5'
    } else if c == 'r' || c == 'R' {
        '6'
    } else {
        '0'
    }
}

/// True for the drop characters: the vowels, `Y`, `H` and `W`, either case.
/// They contribute no digit and are transparent to repeat detection.
pub open spec fn is_drop_char(c: char) -> bool {
    c == 'a' || c == 'A' || c == 'e' || c == 'E' || c == 'i' || c == 'I' || c == 'o' || c == 'O'
        || c == 'u' || c == 'U' || c == 'y' || c == 'Y' || c == 'h' || c == 'H' || c == 'w'
        || c == 'W'
}

/// ASCII uppercasing: lowercase ASCII letters are mapped to their
/// uppercase form, every other character is left unchanged.
pub open spec fn ascii_uppercase(c: char) -> char {
    if is_ascii_lowercase(c) {
        ((c as u32 - 32) as u32) as char
    } else {
        c
    }
}

/// ASCII lowercasing: uppercase ASCII letters are mapped to their
/// lowercase form, every other character is left unchanged.
pub open spec fn ascii_lowercase(c: char) -> char {
    if is_ascii_uppercase(c) {
        ((c as u32 + 32) as u32) as char
    } else {
        c
    }
}

/// The name for what `char::is_alphanumeric` returns: whether a character
/// is a letter or a number under Unicode, a property of the character
/// alone. Nothing but `char_is_alphanumeric` below says anything about it.
pub uninterp spec fn unicode_alphanumeric(c: char) -> bool;

/// Whether a character counts as alphanumeric: a letter or a number in
/// any script. The ASCII letters and digits always do; everything else
/// goes by `unicode_alphanumeric`.
pub open spec fn alphanumeric_char(c: char) -> bool {
    is_ascii_letter(c) || is_ascii_digit(c) || unicode_alphanumeric(c)
}

/// Relies on `char::is_alphanumeric`: true exactly when the character is a
/// Unicode letter or number. Its documentation fixes that the ASCII
/// letters and digits are among them, so the result is `alphanumeric_char`.
#[verifier::external_body]
pub(crate) fn char_is_alphanumeric(c: char) -> (r: bool)
    ensures
        r == unicode_alphanumeric(c),
        r == alphanumeric_char(c),
{
    c.is_alphanumeric()
}

/// The digit class of a character, as a character. Every character has
/// one; the unclassified ones share `'0'`.
pub fn number_map(i: char) -> (r: Option<char>)
    ensures
        r == Some(digit_class(i)),
{
    match i {
        'b' | 'B' | 'f' | 'F' | 'p' | 'P' | 'v' | 'V' => Some('1'),
        'c' | 'C' | 'g' | 'G' | 'j' | 'J' | 'k' | 'K' | 'q' | 'Q' | 's' | 'S' | 'x' | 'X' | 'z'
            | 'Z' => Some('2'),
        'd' | 'D' | 't' | 'T' => Some('3'),
        'l' | 'L' => Some('4'),
        'm' | 'M' | 'n' | 'N' => Some('5'),
        'r' | 'R' => Some('6'),
        _ => Some('0'),
    }
}

/// Whether the character is in the drop set.
pub fn is_drop(c: char) -> (r: bool)
    ensures
        r == is_drop_char(c),
{
    matches!(
        c,
        'a' | 'A' | 'e' | 'E' | 'i' | 'I' | 'o' | 'O' | 'u' | 'U' | 'y' | 'Y' | 'h' | 'H' | 'w'
            | 'W'
    )
}

/// Whether the character is an ASCII letter.
pub(crate) fn is_ascii_letter_char(c: char) -> (r: bool)
    ensures
        r == is_ascii_letter(c),
{
    let u = c as u32;
    (97 <= u && u <= 122) || (65 <= u && u <= 90)
}

/// The ASCII uppercase form of a character.
pub(crate) fn to_uppercase_char(c: char) -> (r: char)
    ensures
        r == ascii_uppercase(c),
{
    match c {
        'a' => 'A',
        'b' => 'B',
        'c' => 'C',
        'd' => 'D',
        'e' => 'E',
        'f' => 'F',
        'g' => 'G',
        'h' => 'H',
        'i' => 'I',
        'j' => 'J',
        'k' => 'K',
        'l' => 'L',
        'm' => 'M',
        'n' => 'N',
        'o' => 'O',
        'p' => 'P',
        'q' => 'Q',
        'r' => 'R',
        's' => 'S',
        't' => 'T',
        'u' => 'U',
        'v' => 'V',
        'w' => 'W',
        'x' => 'X',
        'y' => 'Y',
        'z' => 'Z',
        _ => c,
    }
}

} // verus!
