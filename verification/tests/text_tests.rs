use journai::ieee::{f32_bits_nonzero, f64_bits_equal, f64_bits_nonzero, f64_bits_to_unsigned};
use journai::text::{
    contains_text, i64_text, is_blank_text, join_texts, parse_i32, parse_unsigned, replace_all,
    trim, u64_text,
};

#[test]
fn trim_matches_std() {
    for s in ["", "  ", " a b ", "\u{a0}x\u{3000}", "\t\n\r\u{85}y\u{2029}", "z"] {
        assert_eq!(trim(s), s.trim());
        assert_eq!(is_blank_text(s), s.trim().is_empty());
    }
}

#[test]
fn replace_matches_std() {
    for (s, pat, with) in [("aaa", "aa", "b"), ("ab", "", "x"), ("", "", "x"), ("a\nb\n", "\n", "<br>"), ("```json{}```", "```json", "")] {
        assert_eq!(replace_all(s, pat, with), s.replace(pat, with));
    }
}

#[test]
fn numbers_are_written_like_display() {
    for n in [0u64, 9, 10, 12345, u64::MAX] {
        assert_eq!(u64_text(n), n.to_string());
    }
    for n in [0i64, -1, 42, i64::MIN, i64::MAX] {
        assert_eq!(i64_text(n), n.to_string());
    }
}

#[test]
fn parsing_matches_std() {
    for s in ["", "+", "-", "0", "+5", "-5", "255", "256", "00012", "1 ", "x", "4294967295", "2147483648", "-2147483648"] {
        assert_eq!(parse_unsigned(s, 255), s.parse::<u8>().ok().map(|v| v as u64));
        assert_eq!(parse_unsigned(s, u16::MAX as u64), s.parse::<u16>().ok().map(|v| v as u64));
        assert_eq!(parse_i32(s), s.parse::<i32>().ok());
    }
}

#[test]
fn join_and_search_match_std() {
    let items = vec!["a".to_string(), "b".to_string(), "c".to_string()];
    assert_eq!(join_texts(&items, ", "), items.join(", "));
    assert_eq!(join_texts(&vec![], "x"), "");
    assert!(contains_text("CREATE INDEX gin_trgm_ops", "gin_trgm_ops"));
    assert!(!contains_text("abc", "abcd"));
    assert!(contains_text("abc", ""));
}

#[test]
fn doubles_compare_and_convert_like_std() {
    let values = [0.0f64, -0.0, 1.5, -2.0, f64::NAN, f64::INFINITY, 1e20, 255.9];
    for a in values {
        for b in values {
            assert_eq!(f64_bits_equal(a.to_bits(), b.to_bits()), a == b);
        }
        assert_eq!(f64_bits_nonzero(a.to_bits()), a != 0.0);
        assert_eq!(f64_bits_to_unsigned(a.to_bits(), u64::MAX), a as u64);
        assert_eq!(f64_bits_to_unsigned(a.to_bits(), 255), a as u8 as u64);
    }
    assert!(!f32_bits_nonzero((-0.0f32).to_bits()));
    assert!(f32_bits_nonzero(0.5f32.to_bits()));
}
