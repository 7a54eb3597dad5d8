use kt_ui::text::is_whitespace;

#[test]
fn whitespace_is_exactly_the_unicode_white_space_property() {
    for code in 0..=0x10FFFFu32 {
        if let Some(c) = char::from_u32(code) {
            assert_eq!(is_whitespace(c), c.is_whitespace(), "U+{code:04X}");
        }
    }
}
