use tiygate_client::text::{contains_chars, parse_bool, parse_u64, trim};

#[test]
fn parse_u64_matches_std() {
    let cases = [
        "", "+", "-", "0", "+0", "-0", "007", "42", " 42", "42 ", "4_2", "18446744073709551615",
        "18446744073709551616", "99999999999999999999999", "+18446744073709551615", "1a", "٣",
    ];
    for c in cases {
        assert_eq!(parse_u64(c), c.parse::<u64>().ok(), "input {:?}", c);
    }
}

#[test]
fn parse_bool_matches_std() {
    for c in ["true", "false", "True", "FALSE", "", "1", "0", "yes", "true ", "falsee"] {
        assert_eq!(parse_bool(c), c.parse::<bool>().ok(), "input {:?}", c);
    }
}

#[test]
fn trim_matches_std() {
    for c in ["", "   ", "a", " a b ", "\u{85}x\u{200a}", "\u{200b}x", "\t\r\n x \u{feff}", "\u{1680}\u{205f}"] {
        assert_eq!(trim(c), c.trim(), "input {:?}", c);
    }
}

#[test]
fn contains_finds_runs() {
    let hay: Vec<char> = "gpt-image-1".chars().collect();
    assert!(contains_chars(&hay, &"image".chars().collect()));
    assert!(contains_chars(&hay, &Vec::new()));
    assert!(!contains_chars(&hay, &"imagex".chars().collect()));
    assert!(!contains_chars(&Vec::new(), &"a".chars().collect()));
}
