use std::any::TypeId;
use termgfx::style::{Selector, Style, StyleProperty, StyleRule, StyleSheet};
use termgfx::text::Text;

#[test]
fn test_style_creation() {
    let style = Style::new().bold(true).padding(2);

    assert!(style.has("bold"));
    assert!(style.has("padding"));
    assert!(!style.has("color"));
}

#[test]
fn test_style_merge() {
    let style1 = Style::new().bold(true).padding(2);
    let style2 = Style::new().padding(4).dim(true);

    let merged = style1.merge(&style2);

    // style2's padding should override
    if let Some(StyleProperty::Padding(p)) = merged.get("padding") {
        assert_eq!(*p, 4);
    } else {
        panic!("Expected padding property");
    }

    // Both bold and dim should be present
    assert!(merged.has("bold"));
    assert!(merged.has("dim"));
}

#[test]
fn test_stylesheet_type_selector() {
    let stylesheet = StyleSheet::new().style_type::<Text>(Style::new().bold(true));

    let selector = Selector::Type(TypeId::of::<Text>());
    let styles = stylesheet.get_styles(&selector);

    assert_eq!(styles.len(), 1);
    assert!(styles[0].has("bold"));
}

#[test]
fn test_stylesheet_priority() {
    let stylesheet = StyleSheet::new()
        .add_rule(
            StyleRule::new(Selector::Name("test"), Style::new().padding(2)).with_priority(1),
        )
        .add_rule(
            StyleRule::new(Selector::Name("test"), Style::new().padding(4)).with_priority(10),
        );

    let final_style = stylesheet.compute_style(&[Selector::Name("test")]);

    // Higher priority (10) should win
    if let Some(StyleProperty::Padding(p)) = final_style.get("padding") {
        assert_eq!(*p, 4);
    } else {
        panic!("Expected padding property");
    }
}

#[test]
fn test_empty_stylesheet() {
    let stylesheet = StyleSheet::new();
    let style = stylesheet.compute_style(&[Selector::Name("test")]);

    // Empty stylesheet should produce empty style
    assert!(!style.has("padding"));
    assert!(!style.has("color"));
}

#[test]
fn test_no_matching_selector() {
    let stylesheet = StyleSheet::new().style_name("foo", Style::new().padding(2));

    // Query for a selector that doesn't exist
    let style = stylesheet.compute_style(&[Selector::Name("bar")]);

    assert!(!style.has("padding"));
}

#[test]
fn test_style_multiple_selectors() {
    let stylesheet = StyleSheet::new()
        .style_name("foo", Style::new().padding(2))
        .style_class("bar", Style::new().bold(true));

    // Component matches both selectors
    let style = stylesheet.compute_style(&[Selector::Name("foo"), Selector::Class("bar")]);

    // Should have properties from both
    assert!(style.has("padding"));
    assert!(style.has("bold"));
}

#[test]
fn test_style_property_override() {
    let stylesheet = StyleSheet::new()
        .add_rule(
            StyleRule::new(Selector::Name("test"), Style::new().padding(2)).with_priority(1),
        )
        .add_rule(
            StyleRule::new(Selector::Class("test"), Style::new().padding(10)).with_priority(5),
        );

    // Query with both selectors - class has higher priority
    let style = stylesheet.compute_style(&[Selector::Name("test"), Selector::Class("test")]);

    if let Some(StyleProperty::Padding(p)) = style.get("padding") {
        assert_eq!(*p, 10); // Higher priority wins
    } else {
        panic!("Expected padding property");
    }
}

