use termgfx::i18n::{Locale, TextDirection};

#[test]
fn test_text_direction_detection() {
    assert_eq!(TextDirection::from_lang("en"), TextDirection::LeftToRight);
    assert_eq!(TextDirection::from_lang("ar"), TextDirection::RightToLeft);
    assert_eq!(TextDirection::from_lang("he"), TextDirection::RightToLeft);
    assert_eq!(TextDirection::from_lang("ja"), TextDirection::LeftToRight);
}

#[test]
fn test_locale_parsing() {
    let locale = Locale::from_string("en-US");
    assert_eq!(locale.language, "en");
    assert_eq!(locale.region, Some("US".to_string()));
    assert_eq!(locale.text_direction, TextDirection::LeftToRight);

    let locale_ar = Locale::from_string("ar-SA");
    assert_eq!(locale_ar.text_direction, TextDirection::RightToLeft);
}

#[test]
fn test_locale_from_invalid_string() {
    // Should not panic, just use defaults
    let locale = Locale::from_string("");
    assert_eq!(locale.language, "en");

    // Malformed but should handle gracefully
    let locale2 = Locale::from_string("xyz");
    assert_eq!(locale2.language, "xyz");
    assert_eq!(locale2.region, None);
}

#[test]
fn test_text_direction_unknown_language() {
    // Unknown languages should default to LTR
    assert_eq!(TextDirection::from_lang("xyz"), TextDirection::LeftToRight);
    assert_eq!(TextDirection::from_lang(""), TextDirection::LeftToRight);
}

#[test]
fn locale_conventions() {
    let de = Locale::from_string("de-at");
    assert_eq!(de.language, "de");
    assert_eq!(de.region, Some("AT".to_string()));
    assert_eq!(de.decimal_separator, ',');
    assert_eq!(de.thousands_separator, '.');
    assert_eq!(de.date_format, "%d.%m.%Y");
    let gb = Locale::new("en", Some("GB".to_string()));
    assert_eq!(gb.currency_symbol, "£");
    assert_eq!(gb.date_format, "%d/%m/%Y");
    assert_eq!(gb.time_format, "%H:%M");
    let us = Locale::default();
    assert_eq!(us.date_format, "%m/%d/%Y");
    assert_eq!(us.time_format, "%I:%M %p");
    let ja = Locale::from_string("ja");
    assert_eq!(ja.currency_symbol, "¥");
    assert_eq!(ja.date_format, "%Y-%m-%d");
    let sa = Locale::from_string("ar-SA");
    assert_eq!(sa.currency_symbol, "\u{fdfc}");
    assert!(sa.text_direction.is_rtl());
    assert_eq!(Locale::from_string("-x").language, "en");
}
