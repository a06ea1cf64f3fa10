use soundex_rs::encode;
use soundex_rs::is_drop;
use soundex_rs::number_map;
use soundex_rs::sounds_equal;
use soundex_rs::Soundex;

#[test]
fn empty_input_yields_empty_code() {
    assert_eq!(encode("", false), "".to_string());
    assert_eq!(encode("", true), "".to_string());
    assert_eq!("".soundex(), "".to_string());
}

#[test]
fn default_mode_code_has_length_four() {
    for text in ["x", "a", "Washington", "1", "你", "?!.", " ", "bb你iiiffpvsgsslkfldsjfasdas"] {
        assert_eq!(encode(text, false).chars().count(), 4, "{}", text);
    }
}

#[test]
fn full_mode_code_has_length_at_least_four() {
    for text in ["x", "a", "Washington", "1", "你", "?!.", " ", "bb你iiiffpvsgsslkfldsjfasdas"] {
        assert!(encode(text, true).chars().count() >= 4, "{}", text);
    }
}

#[test]
fn default_mode_is_prefix_of_full_mode() {
    for text in ["", "x", "difficult", "Peterson", "Jefferson", "?!.", "你rfpv"] {
        let full = encode(text, true);
        let default = encode(text, false);
        assert_eq!(default, String::from_iter(full.chars().take(4)), "{}", text);
    }
}

#[test]
fn non_alphanumeric_input_pads_to_zeros() {
    assert_eq!(encode("?!.", false), "0000".to_string());
    assert_eq!(encode("?!.", true), "0000".to_string());
    assert_eq!(encode(" \t", false), "0000".to_string());
}

#[test]
fn leading_non_alphanumeric_characters_are_skipped() {
    assert_eq!(encode(".x", false), "X000".to_string());
    assert_eq!(encode("  Knuth", false), "K530".to_string());
}

#[test]
fn case_does_not_matter() {
    for (a, b) in [("Robert", "ROBERT"), ("Robert", "robert"), ("tymczak", "TYMCZAK")] {
        assert_eq!(encode(a, false), encode(b, false), "{} {}", a, b);
        assert_eq!(encode(a, true), encode(b, true), "{} {}", a, b);
    }
}

#[test]
fn sounds_equal_matches_encoding_comparison() {
    for (a, b) in [("Robert", "Rupert"), ("Smith", "Smyth"), ("hello", "world"), ("", "")] {
        for full in [false, true] {
            assert_eq!(sounds_equal(a, b, full), encode(a, full) == encode(b, full));
        }
    }
}

#[test]
fn digits_seed_but_contribute_no_class() {
    assert_eq!(encode("123", false), "1000".to_string());
    assert_eq!(encode("1bc", false), "1120".to_string());
}

#[test]
fn drop_characters_are_transparent_to_repeats() {
    assert_eq!(encode("Tymczak", false), "T520".to_string());
    assert_eq!(encode("Pfister", false), "P236".to_string());
}

#[test]
fn number_map_gives_the_digit_classes() {
    assert_eq!(number_map('b'), Some('1'));
    assert_eq!(number_map('F'), Some('1'));
    assert_eq!(number_map('c'), Some('2'));
    assert_eq!(number_map('Z'), Some('2'));
    assert_eq!(number_map('d'), Some('3'));
    assert_eq!(number_map('T'), Some('3'));
    assert_eq!(number_map('l'), Some('4'));
    assert_eq!(number_map('m'), Some('5'));
    assert_eq!(number_map('N'), Some('5'));
    assert_eq!(number_map('r'), Some('6'));
    assert_eq!(number_map('h'), Some('0'));
    assert_eq!(number_map('!'), Some('0'));
    assert_eq!(number_map('7'), Some('0'));
}

#[test]
fn is_drop_holds_of_vowels_y_h_w() {
    for c in ['a', 'e', 'i', 'o', 'u', 'y', 'h', 'w', 'A', 'E', 'I', 'O', 'U', 'Y', 'H', 'W'] {
        assert!(is_drop(c), "{}", c);
    }
    for c in ['b', 'R', 'x', '.', '0', '你'] {
        assert!(!is_drop(c), "{}", c);
    }
}
