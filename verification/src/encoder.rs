//! The encoder: the mathematical model of the Soundex code and the
//! executable functions that produce and compare codes.

use vstd::prelude::*;
use vstd::string::StrSliceExecFns;

use crate::classify::alphanumeric_char;
use crate::classify::ascii_uppercase;
use crate::classify::char_is_alphanumeric;
use crate::classify::digit_class;
use crate::classify::is_ascii_letter;
use crate::classify::is_ascii_letter_char;
use crate::classify::is_drop;
use crate::classify::is_drop_char;
use crate::classify::number_map;
use crate::classify::to_uppercase_char;

verus! {

/// The digits produced by scanning `s` when `last` is the digit class of
/// the most recently accepted character. An ASCII letter outside the drop
/// set whose class differs from `last` contributes its digit and becomes
/// the new `last`; every other character is passed over and leaves `last`
/// unchanged, so repeats are detected through drop characters and through
/// characters of other scripts.
pub open spec fn scan_digits(s: Seq<char>, last: char) -> Seq<char>
    decreases s.len(),
{
    if s.len() == 0 {
        Seq::empty()
    } else if !is_ascii_letter(s[0]) || is_drop_char(s[0]) || digit_class(s[0]) == last {
        scan_digits(s.drop_first(), last)
    } else {
        seq![digit_class(s[0])] + scan_digits(s.drop_first(), digit_class(s[0]))
    }
}

/// The first `n` elements of `s`, or all of `s` when it is shorter.
pub open spec fn first_n(s: Seq<char>, n: int) -> Seq<char> {
    if s.len() <= n {
        s
    } else {
        s.take(n)
    }
}

/// The code before padding. Characters before the first alphanumeric one
/// are discarded; that character, uppercased, seeds the code verbatim, and
/// its digit class starts the repeat detection; the rest of the input is
/// scanned for digits, of which default mode keeps at most three. If no
/// character is alphanumeric the body is empty.
pub open spec fn seed_body(s: Seq<char>, full: bool) -> Seq<char>
    decreases s.len(),
{
    if s.len() == 0 {
        Seq::empty()
    } else if !alphanumeric_char(s[0]) {
        seed_body(s.drop_first(), full)
    } else {
        let digits = scan_digits(s.drop_first(), digit_class(s[0]));
        seq![ascii_uppercase(s[0])] + (if full {
            digits
        } else {
            first_n(digits, 3)
        })
    }
}

/// `s` padded with `'0'` to at least four characters.
pub open spec fn zero_padded(s: Seq<char>) -> Seq<char> {
    if s.len() < 4 {
        s + Seq::new((4 - s.len()) as nat, |k: int| '0')
    } else {
        s
    }
}

/// The Soundex code of `s`: empty for empty input, otherwise the padded
/// body. In default mode (`full == false`) the code has exactly four
/// characters; in full mode it keeps every digit the scan produced.
pub open spec fn soundex_code(s: Seq<char>, full: bool) -> Seq<char> {
    if s.len() == 0 {
        Seq::empty()
    } else {
        zero_padded(seed_body(s, full))
    }
}

/// Relies on `String::push`: appends exactly the given character at the
/// end of the string.
#[verifier::external_body]
fn push_char(s: &mut String, c: char)
    ensures
        final(s)@ == old(s)@.push(c),
{
    s.push(c);
}

/// The Soundex code of `text`: in default mode a four-character code, in
/// full mode a code of at least four characters, and the empty string for
/// empty input.
pub fn encode(text: &str, full: bool) -> (code: String)
    ensures
        code@ == soundex_code(text@, full),
{
    let ghost s = text@;
    let n = text.unicode_len();
    if n == 0 {
        return String::new();
    }
    let mut result = String::new();
    let mut count: usize = 0;

    // Find the seed: the first alphanumeric character of the input.
    let mut i: usize = 0;
    let mut seeded = false;
    proof {
        assert(s.skip(0) =~= s);
    }
    while i < n
        invariant_except_break
            !seeded,
        invariant
            s == text@,
            n == s.len(),
            i <= n,
            seed_body(s, full) == seed_body(s.skip(i as int), full),
        ensures
            seeded ==> i < n && alphanumeric_char(s[i as int]),
            !seeded ==> i == n,
        decreases n - i,
    {
        let c = text.get_char(i);
        if char_is_alphanumeric(c) {
            seeded = true;
            break ;
        }
        proof {
            assert(s.skip(i as int).drop_first() =~= s.skip(i as int + 1));
        }
        i = i + 1;
    }

    if seeded {
        let c = text.get_char(i);
        proof {
            assert(s.skip(i as int)[0] == s[i as int]);
            assert(s.skip(i as int).drop_first() =~= s.skip(i as int + 1));
        }
        let up = to_uppercase_char(c);
        push_char(&mut result, up);
        count = 1;
        let mut last = match number_map(c) {
            Some(d) => d,
            None => '0',
        };
        let ghost seed_i = i as int;
        let ghost digits = scan_digits(s.skip(seed_i + 1), digit_class(s[seed_i]));
        let ghost mut taken = Seq::<char>::empty();
        proof {
            assert(result@ =~= seq![ascii_uppercase(s[seed_i])] + taken);
            assert(taken + digits =~= digits);
        }
        let mut j = i + 1;
        while j < n
            invariant_except_break
                !full ==> count <= 3,
            invariant
                s == text@,
                n == s.len(),
                0 <= seed_i < n as int,
                seed_i + 1 <= j as int <= n as int,
                count == result@.len(),
                count <= j,
                result@ == seq![ascii_uppercase(s[seed_i])] + taken,
                digits == taken + scan_digits(s.skip(j as int), last),
                !full ==> count <= 4,
            ensures
                j as int == n as int || (!full && count == 4),
            decreases n - j,
        {
            let c2 = text.get_char(j);
            proof {
                assert(s.skip(j as int)[0] == s[j as int]);
                assert(s.skip(j as int).drop_first() =~= s.skip(j as int + 1));
            }
            let score = match number_map(c2) {
                Some(d) => d,
                None => '0',
            };
            if !is_ascii_letter_char(c2) || is_drop(c2) || score == last {
                j = j + 1;
            } else {
                last = score;
                push_char(&mut result, score);
                count = count + 1;
                proof {
                    let rest = scan_digits(s.skip(j as int + 1), digit_class(s[j as int]));
                    assert(taken + (seq![digit_class(s[j as int])] + rest) =~= taken.push(
                        digit_class(s[j as int]),
                    ) + rest);
                    assert((seq![ascii_uppercase(s[seed_i])] + taken).push(
                        digit_class(s[j as int]),
                    ) =~= seq![ascii_uppercase(s[seed_i])] + taken.push(digit_class(s[j as int])));
                    taken = taken.push(score);
                }
                j = j + 1;
                if !full && count == 4 {
                    break ;
                }
            }
        }
        proof {
            if j as int == n as int {
                assert(s.skip(j as int) =~= Seq::<char>::empty());
                assert(taken + Seq::<char>::empty() =~= taken);
                assert(digits == taken);
                if !full {
                    // at most three digits were taken, so nothing is cut off
                    assert(first_n(digits, 3) == taken);
                }
            } else {
                // the scan stopped early: exactly three digits after the seed
                assert(taken.len() == 3);
                if digits.len() <= 3 {
                    assert(scan_digits(s.skip(j as int), last).len() == 0);
                    assert(taken + scan_digits(s.skip(j as int), last) =~= taken);
                    assert(first_n(digits, 3) == taken);
                } else {
                    assert(first_n(digits, 3) =~= taken);
                }
            }
            assert(result@ == seq![ascii_uppercase(s[seed_i])] + (if full {
                digits
            } else {
                first_n(digits, 3)
            }));
            assert(result@ == seed_body(s.skip(seed_i), full));
            assert(result@ == seed_body(s, full));
        }
    } else {
        proof {
            assert(s.skip(i as int) =~= Seq::<char>::empty());
            assert(result@ == seed_body(s, full));
        }
    }

    // Pad with zeros to at least four characters.
    let ghost body = result@;
    proof {
        assert(result@ =~= body + Seq::new((count - body.len()) as nat, |k: int| '0'));
    }
    while count < 4
        invariant
            count == result@.len(),
            body.len() <= count,
            count <= 4 || count == body.len(),
            result@ == body + Seq::new((count - body.len()) as nat, |k: int| '0'),
        decreases 4 - count,
    {
        push_char(&mut result, '0');
        count = count + 1;
        proof {
            assert(result@ =~= body + Seq::new((count - body.len()) as nat, |k: int| '0'));
        }
    }
    proof {
        assert(result@ =~= zero_padded(body));
    }
    result
}

/// Whether two texts sound alike: their Soundex codes in the given mode
/// are equal.
pub fn sounds_equal(left: &str, right: &str, full: bool) -> (r: bool)
    ensures
        r == (soundex_code(left@, full) == soundex_code(right@, full)),
{
    let a = encode(left, full);
    let b = encode(right, full);
    a == b
}

/// A value that has a Soundex code: anything that can be read as text.
pub trait Soundex {
    /// The text whose code is taken.
    spec fn text(&self) -> Seq<char>;

    /// The default-mode Soundex code of the text.
    fn soundex(&self) -> (code: String)
        ensures
            code@ == soundex_code(self.text(), false),
    ;
}

impl Soundex for str {
    open spec fn text(&self) -> Seq<char> {
        self@
    }

    fn soundex(&self) -> (code: String) {
        encode(self, false)
    }
}

impl Soundex for &str {
    open spec fn text(&self) -> Seq<char> {
        self@
    }

    fn soundex(&self) -> (code: String) {
        encode(self, false)
    }
}

impl Soundex for String {
    open spec fn text(&self) -> Seq<char> {
        self@
    }

    fn soundex(&self) -> (code: String) {
        encode(self.as_str(), false)
    }
}

/// Whether two values' default-mode Soundex codes are equal.
pub fn equal<LEFT: Soundex, RIGHT: Soundex>(left: LEFT, right: RIGHT) -> (r: bool)
    ensures
        r == (soundex_code(left.text(), false) == soundex_code(right.text(), false)),
{
    let a = left.soundex();
    let b = right.soundex();
    a == b
}

} // verus!
