use tissue_rs::text::contains_whitespace;

#[test]
fn plain_text_has_no_whitespace() {
    assert!(!contains_whitespace("verus"));
    assert!(!contains_whitespace(""));
    assert!(!contains_whitespace("タグ"));
}

#[test]
fn whitespace_is_found_wherever_it_stands() {
    assert!(contains_whitespace(" a"));
    assert!(contains_whitespace("a "));
    assert!(contains_whitespace("a b"));
    assert!(contains_whitespace("a\tb"));
    assert!(contains_whitespace("a\nb"));
    assert!(contains_whitespace("a\u{3000}b"));
    assert!(contains_whitespace(" "));
}

#[test]
fn whitespace_check_agrees_with_is_whitespace() {
    for code in 0u32..0x3100 {
        if let Some(c) = char::from_u32(code) {
            let text = format!("a{}b", c);
            assert_eq!(contains_whitespace(&text), c.is_whitespace());
        }
    }
}

fn has_white_space_property(c: char) -> bool {
    matches!(
        c as u32,
        0x0009..=0x000D
            | 0x0020
            | 0x0085
            | 0x00A0
            | 0x1680
            | 0x2000..=0x200A
            | 0x2028
            | 0x2029
            | 0x202F
            | 0x205F
            | 0x3000
    )
}

#[test]
fn whitespace_is_the_white_space_property_for_every_character() {
    let mut count = 0;
    for code in 0u32..=0x10FFFF {
        if let Some(c) = char::from_u32(code) {
            assert_eq!(c.is_whitespace(), has_white_space_property(c), "{:#x}", code);
            let mut buffer = [0u8; 4];
            assert_eq!(
                contains_whitespace(c.encode_utf8(&mut buffer)),
                has_white_space_property(c),
                "{:#x}",
                code
            );
            if has_white_space_property(c) {
                count += 1;
            }
        }
    }
    assert_eq!(count, 25);
}

#[test]
fn trimming_removes_every_whitespace_character_at_both_ends() {
    for code in 0u32..=0x10FFFF {
        if let Some(c) = char::from_u32(code) {
            let text = format!("{}x{}", c, c);
            let expected = if has_white_space_property(c) { "x" } else { text.as_str() };
            assert_eq!(text.trim(), expected, "{:#x}", code);
        }
    }
}
