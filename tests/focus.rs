use termgfx::focus::{FocusManager, FocusableInfo};

#[test]
fn test_basic_focus() {
    let mut fm = FocusManager::new();
    fm.register("a");
    fm.register("b");
    fm.register("c");

    assert_eq!(fm.focused(), None);

    fm.focus("b");
    assert!(fm.is_focused("b"));
    assert!(!fm.is_focused("a"));
}

#[test]
fn test_focus_next_prev() {
    let mut fm = FocusManager::new();
    fm.register("a");
    fm.register("b");
    fm.register("c");

    fm.focus("a");

    fm.focus_next();
    assert!(fm.is_focused("b"));

    fm.focus_next();
    assert!(fm.is_focused("c"));

    fm.focus_next(); // Wraps
    assert!(fm.is_focused("a"));

    fm.focus_prev(); // Wraps back
    assert!(fm.is_focused("c"));
}

#[test]
fn test_tab_index_ordering() {
    let mut fm = FocusManager::new();
    fm.register_with_info(FocusableInfo::new("c").with_tab_index(3));
    fm.register_with_info(FocusableInfo::new("a").with_tab_index(1));
    fm.register_with_info(FocusableInfo::new("b").with_tab_index(2));

    fm.focus_next(); // Should focus 'a' (tab_index 1)
    assert!(fm.is_focused("a"));

    fm.focus_next(); // Should focus 'b' (tab_index 2)
    assert!(fm.is_focused("b"));

    fm.focus_next(); // Should focus 'c' (tab_index 3)
    assert!(fm.is_focused("c"));
}

#[test]
fn test_unfocusable_components() {
    let mut fm = FocusManager::new();
    fm.register_with_info(FocusableInfo::new("a"));
    fm.register_with_info(FocusableInfo::new("b").with_focusable(false));
    fm.register_with_info(FocusableInfo::new("c"));

    fm.focus("a");
    fm.focus_next();
    // Should skip 'b' and go to 'c'
    assert!(fm.is_focused("c"));
}

#[test]
fn test_unregister() {
    let mut fm = FocusManager::new();
    fm.register("a");
    fm.register("b");
    fm.register("c");

    fm.focus("b");
    assert!(fm.is_focused("b"));

    fm.unregister("b");
    assert_eq!(fm.focused(), None);
    assert!(!fm.is_registered("b"));
    assert_eq!(fm.count(), 2);
}

#[test]
fn test_no_wrap() {
    let mut fm = FocusManager::new();
    fm.set_wrap_around(false);
    fm.register("a");
    fm.register("b");

    fm.focus("b");
    let moved = fm.focus_next();
    assert!(!moved); // Can't move past end
    assert!(fm.is_focused("b"));

    fm.focus("a");
    let moved = fm.focus_prev();
    assert!(!moved); // Can't move past start
    assert!(fm.is_focused("a"));
}

