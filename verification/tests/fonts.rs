use kt_ui::fonts::{css_font_family, fallback_fonts, font_listed_before, looks_monospace, order_font_families, FALLBACK_FONTS};

#[test]
fn css_font_family_rejects_style_injection_and_keeps_fallback() {
    assert_eq!(css_font_family("Fira Code; color: red"), "Fira Code color red");
    assert_eq!(css_font_family("苹方 SC"), "苹方 SC");
    assert!(css_font_family(";:{}").contains("monospace"));
}

#[test]
fn blank_font_families_use_the_default_list() {
    assert_eq!(css_font_family(""), "\"SF Mono\", \"Menlo\", \"Consolas\", monospace");
    assert_eq!(css_font_family("  ;; "), "\"SF Mono\", \"Menlo\", \"Consolas\", monospace");
    assert_eq!(css_font_family("'JetBrains Mono', monospace"), "'JetBrains Mono', monospace");
}

#[test]
fn monospace_markers_are_recognised_ignoring_case() {
    assert!(looks_monospace("JetBrains MONO"));
    assert!(looks_monospace("Source Code Pro"));
    assert!(looks_monospace("Courier New"));
    assert!(looks_monospace("Lucida Console"));
    assert!(looks_monospace("Menlo"));
    assert!(looks_monospace("Monaco"));
    assert!(!looks_monospace("Helvetica"));
    assert!(!looks_monospace(""));
}

#[test]
fn font_list_is_deduplicated_with_fallbacks_and_monospace_first() {
    let fonts = order_font_families(&[
        "Helvetica".to_string(),
        "arial".to_string(),
        "Fira Code".to_string(),
        "Menlo".to_string(),
        "Helvetica".to_string(),
    ]);
    assert_eq!(
        fonts,
        vec![
            "Courier New",
            "DejaVu Sans Mono",
            "Fira Code",
            "Menlo",
            "Monaco",
            "monospace",
            "SF Mono",
            "arial",
            "Consolas",
            "Helvetica",
        ]
    );
    let first_non_mono = fonts.iter().position(|font| !looks_monospace(font)).unwrap();
    assert!(fonts[..first_non_mono].iter().all(|font| looks_monospace(font)));
    assert!(fonts[first_non_mono..].iter().all(|font| !looks_monospace(font)));
}

#[test]
fn names_differing_only_in_case_keep_a_stable_order() {
    assert!(font_listed_before("ABC", "abc"));
    assert!(!font_listed_before("abc", "ABC"));
    assert!(!font_listed_before("x", "x"));
    assert!(font_listed_before("Mono", "Arial"));
}

#[test]
fn without_system_fonts_the_fallback_list_is_offered() {
    let fonts = fallback_fonts();
    assert_eq!(fonts, FALLBACK_FONTS.iter().map(|f| f.to_string()).collect::<Vec<_>>());
    assert_eq!(order_font_families(&[]).len(), FALLBACK_FONTS.len());
}

#[test]
fn css_font_family_keeps_ascii_letters_digits_and_listed_marks_only() {
    let value = css_font_family("A-z_0.9,'x\" <b>:{};@#");
    assert_eq!(value, "A-z_0.9,'x\" b");
    assert!(value.chars().all(|c| c.is_alphanumeric() || " ,-_.'\"".contains(c)));
    assert!(!css_font_family("\u{3000};").trim().is_empty());
    assert_eq!(css_font_family("Ünïcode²"), "Ünïcode²");
}
