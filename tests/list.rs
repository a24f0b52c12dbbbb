use termgfx::event::{Event, Key};
use termgfx::list::{List, SelectionMode};

#[test]
fn test_selection() {
    let mut list = List::new(vec!["a", "b", "c"]);

    assert_eq!(list.selected(), None);

    list.select(1);
    assert_eq!(list.selected(), Some(&"b"));
    assert_eq!(list.selected_index(), Some(1));
}

#[test]
fn list_test_navigation() {
    let mut list = List::new(vec!["a", "b", "c"]);

    list.select(0);
    assert_eq!(list.selected(), Some(&"a"));

    list.select_next();
    assert_eq!(list.selected(), Some(&"b"));

    list.select_next();
    assert_eq!(list.selected(), Some(&"c"));

    list.select_next(); // Should stay at end
    assert_eq!(list.selected(), Some(&"c"));

    list.select_prev();
    assert_eq!(list.selected(), Some(&"b"));
}

#[test]
fn test_first_last() {
    let mut list = List::new(vec!["a", "b", "c", "d"]);

    list.select_last();
    assert_eq!(list.selected(), Some(&"d"));

    list.select_first();
    assert_eq!(list.selected(), Some(&"a"));
}

#[test]
fn test_multiple_selection() {
    let mut list = List::new(vec!["a", "b", "c"]).with_selection_mode(SelectionMode::Multiple);

    list.select(0);
    list.toggle_select(1);
    list.toggle_select(2);

    assert!(list.is_selected(0));
    assert!(list.is_selected(1));
    assert!(list.is_selected(2));

    list.toggle_select(1);
    assert!(!list.is_selected(1));
}

#[test]
fn test_empty_list() {
    let mut list: List<String> = List::empty();

    assert!(list.is_empty());
    assert!(!list.select_next());
    assert!(!list.select_prev());
    assert_eq!(list.selected(), None);
}


#[test]
fn list_keys_move_selection() {
    let mut list = List::new(vec!["a", "b", "c", "d"]).with_selection_mode(SelectionMode::Multiple);
    assert!(!list.handle_event(&Event::Key(Key::Char('j'))));
    list.set_focused(true);
    assert!(list.handle_event(&Event::Key(Key::Char('j'))));
    assert_eq!(list.selected_index(), Some(0));
    assert!(list.handle_event(&Event::Key(Key::Down)));
    assert_eq!(list.selected_index(), Some(1));
    assert!(list.handle_event(&Event::Key(Key::Char('G'))));
    assert_eq!(list.selected_index(), Some(3));
    assert!(list.handle_event(&Event::Key(Key::Char('k'))));
    assert_eq!(list.selected_index(), Some(2));
    assert!(list.handle_event(&Event::Key(Key::Char(' '))));
    assert!(list.handle_event(&Event::Key(Key::Char('g'))));
    assert_eq!(list.selected_index(), Some(0));
    assert!(!list.handle_event(&Event::Key(Key::Char('x'))));
    assert!(!list.handle_event(&Event::FocusGained));
}
