//! Laws of the encoding: the shape of the code's length, how full mode
//! extends default mode, and insensitivity to letter case.

use vstd::prelude::*;

use crate::classify::alphanumeric_char;
use crate::classify::ascii_lowercase;
use crate::classify::ascii_uppercase;
use crate::classify::digit_class;
use crate::classify::is_ascii_letter;
use crate::classify::is_drop_char;
use crate::encoder::first_n;
use crate::encoder::scan_digits;
use crate::encoder::seed_body;
use crate::encoder::soundex_code;
use crate::encoder::zero_padded;

verus! {

proof fn lemma_seed_body_default_len(s: Seq<char>)
    ensures
        seed_body(s, false).len() <= 4,
    decreases s.len(),
{
    if s.len() == 0 {
    } else if !alphanumeric_char(s[0]) {
        lemma_seed_body_default_len(s.drop_first());
    }
}

/// In default mode the code is empty for empty input and has exactly four
/// characters for every other input.
pub proof fn lemma_default_mode_length(s: Seq<char>)
    ensures
        s.len() == 0 ==> soundex_code(s, false).len() == 0,
        s.len() > 0 ==> soundex_code(s, false).len() == 4,
{
    if s.len() > 0 {
        lemma_seed_body_default_len(s);
    }
}

proof fn lemma_seed_body_mode_prefix(s: Seq<char>)
    ensures
        seed_body(s, false) == first_n(seed_body(s, true), 4),
    decreases s.len(),
{
    if s.len() == 0 {
    } else if !alphanumeric_char(s[0]) {
        lemma_seed_body_mode_prefix(s.drop_first());
    } else {
        let digits = scan_digits(s.drop_first(), digit_class(s[0]));
        let u = ascii_uppercase(s[0]);
        if digits.len() <= 3 {
            assert(seed_body(s, false) == seed_body(s, true));
        } else {
            assert(first_n(seq![u] + digits, 4) =~= seq![u] + first_n(digits, 3));
        }
    }
}

/// In full mode the code of a non-empty input has at least four
/// characters, and the default-mode code is exactly its first four; for
/// empty input both codes are empty.
pub proof fn lemma_full_mode_extends_default(s: Seq<char>)
    ensures
        s.len() == 0 ==> soundex_code(s, true).len() == 0,
        s.len() > 0 ==> soundex_code(s, true).len() >= 4,
        soundex_code(s, false) == first_n(soundex_code(s, true), 4),
{
    if s.len() > 0 {
        lemma_seed_body_mode_prefix(s);
        assert(zero_padded(seed_body(s, false)) =~= first_n(zero_padded(seed_body(s, true)), 4));
    }
}

/// The text with every ASCII letter uppercased, character by character.
pub open spec fn ascii_uppercased(s: Seq<char>) -> Seq<char> {
    Seq::new(s.len(), |k: int| ascii_uppercase(s[k]))
}

/// The text with every ASCII letter lowercased, character by character.
pub open spec fn ascii_lowercased(s: Seq<char>) -> Seq<char> {
    Seq::new(s.len(), |k: int| ascii_lowercase(s[k]))
}

proof fn lemma_case_preserves_class(c: char)
    ensures
        digit_class(ascii_uppercase(c)) == digit_class(c),
        digit_class(ascii_lowercase(c)) == digit_class(c),
        is_drop_char(ascii_uppercase(c)) == is_drop_char(c),
        is_drop_char(ascii_lowercase(c)) == is_drop_char(c),
        is_ascii_letter(ascii_uppercase(c)) == is_ascii_letter(c),
        is_ascii_letter(ascii_lowercase(c)) == is_ascii_letter(c),
        ascii_uppercase(ascii_uppercase(c)) == ascii_uppercase(c),
        ascii_uppercase(ascii_lowercase(c)) == ascii_uppercase(c),
{
}

proof fn lemma_scan_digits_case(s: Seq<char>, last: char)
    ensures
        scan_digits(ascii_uppercased(s), last) == scan_digits(s, last),
        scan_digits(ascii_lowercased(s), last) == scan_digits(s, last),
    decreases s.len(),
{
    if s.len() == 0 {
        assert(ascii_uppercased(s) =~= Seq::<char>::empty());
        assert(ascii_lowercased(s) =~= Seq::<char>::empty());
    } else {
        lemma_case_preserves_class(s[0]);
        assert(ascii_uppercased(s).drop_first() =~= ascii_uppercased(s.drop_first()));
        assert(ascii_lowercased(s).drop_first() =~= ascii_lowercased(s.drop_first()));
        lemma_scan_digits_case(s.drop_first(), last);
        if is_ascii_letter(s[0]) && !is_drop_char(s[0]) && digit_class(s[0]) != last {
            lemma_scan_digits_case(s.drop_first(), digit_class(s[0]));
        }
    }
}

/// Letter case does not matter: for a text of ASCII letters, the code of
/// the text, of its uppercased form and of its lowercased form coincide,
/// in either mode.
pub proof fn lemma_case_insensitive(s: Seq<char>, full: bool)
    requires
        forall|k: int| 0 <= k < s.len() ==> is_ascii_letter(s[k]),
    ensures
        soundex_code(ascii_uppercased(s), full) == soundex_code(s, full),
        soundex_code(ascii_lowercased(s), full) == soundex_code(s, full),
{
    if s.len() == 0 {
        assert(ascii_uppercased(s) =~= Seq::<char>::empty());
        assert(ascii_lowercased(s) =~= Seq::<char>::empty());
    } else {
        let su = ascii_uppercased(s);
        let sl = ascii_lowercased(s);
        lemma_case_preserves_class(s[0]);
        assert(is_ascii_letter(s[0]));
        assert(alphanumeric_char(s[0]) && alphanumeric_char(su[0]) && alphanumeric_char(sl[0]));
        assert(su.drop_first() =~= ascii_uppercased(s.drop_first()));
        assert(sl.drop_first() =~= ascii_lowercased(s.drop_first()));
        lemma_scan_digits_case(s.drop_first(), digit_class(s[0]));
        assert(seed_body(su, full) == seed_body(s, full));
        assert(seed_body(sl, full) == seed_body(s, full));
    }
}

} // verus!
