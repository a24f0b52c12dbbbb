use termgfx::i18n::TextDirection;
use termgfx::text::{PhysicalAlign, TextAlign};

#[test]
fn test_text_align_resolve_ltr() {
    // In LTR, Start = Left, End = Right
    assert_eq!(
        TextAlign::Start.resolve(TextDirection::LeftToRight),
        PhysicalAlign::Left
    );
    assert_eq!(
        TextAlign::End.resolve(TextDirection::LeftToRight),
        PhysicalAlign::Right
    );
    assert_eq!(
        TextAlign::Center.resolve(TextDirection::LeftToRight),
        PhysicalAlign::Center
    );
}

#[test]
fn test_text_align_resolve_rtl() {
    // In RTL, Start = Right, End = Left (reversed!)
    assert_eq!(
        TextAlign::Start.resolve(TextDirection::RightToLeft),
        PhysicalAlign::Right
    );
    assert_eq!(
        TextAlign::End.resolve(TextDirection::RightToLeft),
        PhysicalAlign::Left
    );
    assert_eq!(
        TextAlign::Center.resolve(TextDirection::RightToLeft),
        PhysicalAlign::Center
    );
}

#[test]
fn test_text_align_force_ignores_direction() {
    // Force should ignore text direction
    assert_eq!(
        TextAlign::ForceLeft.resolve(TextDirection::RightToLeft),
        PhysicalAlign::Left
    );
    assert_eq!(
        TextAlign::ForceRight.resolve(TextDirection::LeftToRight),
        PhysicalAlign::Right
    );
}

