use referral_code_role::code_gen::{generate_code, normalize_code, CHARSET};
use referral_code_role::text::{
    contains_str, is_whitespace_char, starts_with_chars, str_eq, to_upper_chars, trim_chars,
};

fn chars_of(s: &str) -> Vec<char> {
    s.chars().collect()
}

fn string_from_chars(v: &[char]) -> String {
    v.iter().collect()
}

#[test]
fn whitespace_agrees_with_std_on_every_char() {
    for u in 0u32..=0x10FFFF {
        if let Some(c) = char::from_u32(u) {
            assert_eq!(is_whitespace_char(c), c.is_whitespace(), "char {:#x}", u);
        }
    }
}

#[test]
fn trim_agrees_with_std() {
    for s in ["", "  ", " a ", "\u{3000}x y\u{2029}", "abc", "\t\n https://x \r"] {
        let t = trim_chars(&chars_of(s));
        assert_eq!(string_from_chars(&t), s.trim());
    }
}

#[test]
fn upper_agrees_with_std() {
    for s in ["abc", "straße", "ǆ", "mixed Case 123", ""] {
        let u = to_upper_chars(&chars_of(s));
        assert_eq!(string_from_chars(&u), s.to_uppercase());
    }
}

#[test]
fn prefix_and_equality_helpers() {
    assert!(starts_with_chars(&chars_of("https://x"), &chars_of("https://")));
    assert!(!starts_with_chars(&chars_of("http"), &chars_of("https://")));
    assert!(str_eq("abc", "abc"));
    assert!(!str_eq("abc", "abd"));
    let v = vec!["a".to_string(), "b".to_string()];
    assert!(contains_str(&v, "b"));
    assert!(!contains_str(&v, "c"));
}

#[test]
fn normalize_drops_separators_and_uppercases() {
    assert_eq!(normalize_code("abc-def 12"), "ABCDEF12");
    assert_eq!(normalize_code("  pod-code\t"), "PODCODE");
    assert_eq!(normalize_code("---"), "");
    assert_eq!(normalize_code(""), "");
    assert_eq!(normalize_code("straße"), "STRASSE");
}

#[test]
fn normalize_matches_the_original_expression() {
    for s in ["a-b c", "x\u{2003}y", "Ab-Cd-Ef", "ǆ-ß", " 12 34 "] {
        let expected = s
            .chars()
            .filter(|c| !c.is_whitespace() && *c != '-')
            .collect::<String>()
            .to_uppercase();
        assert_eq!(normalize_code(s), expected);
    }
}

#[test]
fn normalize_is_case_insensitive_and_idempotent_on_examples() {
    assert_eq!(normalize_code("KickStarter-2"), normalize_code("kickstarter2"));
    let once = normalize_code("ab-cd ef");
    assert_eq!(normalize_code(&once), once);
}

#[test]
fn generated_codes_have_the_alphabet_and_length() {
    for len in [0usize, 4, 6, 12, 20, 32, 40] {
        let code = generate_code(len, None);
        let expected = len.clamp(4, 32);
        assert_eq!(code.chars().count(), expected);
        assert!(code.chars().all(|c| CHARSET.contains(&c)));
        assert!(!code.chars().any(|c| "01OIL".contains(c)));
    }
}

#[test]
fn generated_codes_carry_the_uppercased_prefix() {
    let code = generate_code(8, Some("kick-"));
    assert!(code.starts_with("KICK-"));
    assert_eq!(code.chars().count(), 5 + 8);
    let bare = generate_code(8, Some(""));
    assert_eq!(bare.chars().count(), 8);
}

#[test]
fn charset_has_thirty_one_unambiguous_characters() {
    let s: String = CHARSET.iter().collect();
    assert_eq!(s, "ABCDEFGHJKMNPQRSTUVWXYZ23456789");
}
