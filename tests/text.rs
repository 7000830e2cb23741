use darwin_v7::text::{same_text, u32_from_text, u32_to_text};

#[test]
fn decimal_numbers_read_as_str_parse_does() {
    for s in ["0", "7", "007", "+12", "4294967295", "4294967296", "", "+", "-1", "1.0", " 1", "12a"] {
        assert_eq!(u32_from_text(s), s.parse::<u32>().ok(), "{s}");
    }
}

#[test]
fn decimal_numbers_written_as_to_string_does() {
    for n in [0u32, 9, 10, 2048, 65535, u32::MAX] {
        assert_eq!(u32_to_text(n), n.to_string());
        assert_eq!(u32_from_text(&u32_to_text(n)), Some(n));
    }
}

#[test]
fn texts_compare_by_characters() {
    assert!(same_text("base_key", "base_key"));
    assert!(!same_text("base_key", "base_kez"));
    assert!(!same_text("é", "e"));
}
