use soundex_rs::encode;
use soundex_rs::equal;
use soundex_rs::Soundex;

#[test]
fn test_soundex() {
    let m = vec![
        ("", "".to_string()),
        ("c你rfpv", "C610".to_string()),
        ("你rfpv", "你610".to_string()),
        ("x", "X000".to_string()),
        ("xxxxx", "X000".to_string()),
        ("difficult", "D1243".to_string()),
        ("Knuth", "K530".to_string()),
        ("Kant", "K530".to_string()),
        ("Jarovski", "J612".to_string()),
        ("Resnik", "R252".to_string()),
        ("Reznick", "R252".to_string()),
        ("Euler", "E460".to_string()),
        ("Peterson", "P3625".to_string()),
        ("Jefferson", "J1625".to_string()),
        ("bb你iiiffpvsgsslkfldsjfasdas", "B24214321232".to_string()),
    ];

    for (i, v) in m.into_iter() {
        let truncated = String::from_iter(v.chars().take(4));
        assert_eq!(i.soundex(), truncated, "{}", i);
        assert_eq!(i.to_string().soundex(), truncated, "{}", i);
        assert_eq!(i.to_string().as_mut().soundex(), truncated, "{}", i);
        assert_eq!(encode(i, true), v, "{}", i);
    }
}

#[test]
fn test_equal() {
    assert!(equal("hello", "hello".to_string()));
    assert!(equal("hello", "hello"));
    assert!(!equal("hello world", "hello".to_string()));
}
