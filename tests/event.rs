use termgfx::event::{Event, Key};

#[test]
fn test_key_variants() {
    let k = Key::Char('a');
    assert_eq!(k, Key::Char('a'));

    let k2 = Key::Ctrl('c');
    assert_eq!(k2, Key::Ctrl('c'));
}

#[test]
fn test_event_types() {
    let e = Event::Key(Key::Enter);
    match e {
        Event::Key(Key::Enter) => {}
        other => panic!("expected Key(Enter), got {:?}", other),
    }
}

