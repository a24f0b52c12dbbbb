use termgfx::modal::{ModalState, Mode, Operator, VisualMode};

#[test]
fn test_modal_state_creation() {
    let state = ModalState::new();
    assert_eq!(state.mode(), Mode::Normal);
    assert_eq!(state.count(), 1);
    assert!(!state.has_pending_operator());
}

#[test]
fn test_mode_transitions() {
    let mut state = ModalState::new();

    state.enter_insert();
    assert_eq!(state.mode(), Mode::Insert);

    state.enter_normal();
    assert_eq!(state.mode(), Mode::Normal);

    state.enter_visual();
    assert_eq!(state.mode(), Mode::Visual(VisualMode::Character));

    state.enter_visual_line();
    assert_eq!(state.mode(), Mode::Visual(VisualMode::Line));

    state.enter_command();
    assert_eq!(state.mode(), Mode::Command);
}

#[test]
fn test_count_accumulation() {
    let mut state = ModalState::new();

    state.accumulate_count('3');
    assert_eq!(state.count(), 3);

    state.accumulate_count('2');
    assert_eq!(state.count(), 32);

    state.clear_count();
    assert_eq!(state.count(), 1);
}

#[test]
fn test_pending_operator() {
    let mut state = ModalState::new();

    state.set_pending_operator(Operator::Delete);
    assert!(state.has_pending_operator());

    let op = state.take_pending_operator();
    assert_eq!(op, Some(Operator::Delete));
    assert!(!state.has_pending_operator());
}

#[test]
fn test_register_handling() {
    let mut state = ModalState::new();

    assert_eq!(state.register(), '"');

    state.set_register('a');
    assert_eq!(state.register(), 'a');

    state.reset_register();
    assert_eq!(state.register(), '"');
}

#[test]
fn test_status_display() {
    let mut state = ModalState::new();

    state.accumulate_count('3');
    state.set_pending_operator(Operator::Delete);
    state.push_pending_key('i');

    assert_eq!(state.status(), "3di");
}

#[test]
fn test_clear_pending() {
    let mut state = ModalState::new();

    state.accumulate_count('5');
    state.set_pending_operator(Operator::Yank);
    state.push_pending_key('w');
    state.set_register('a');

    state.clear_pending();

    assert_eq!(state.count(), 1);
    assert!(!state.has_pending_operator());
    assert!(state.pending_keys().is_empty());
    assert_eq!(state.register(), '"');
}

#[test]
fn test_mode_names() {
    assert_eq!(Mode::Normal.name(), "NORMAL");
    assert_eq!(Mode::Insert.name(), "INSERT");
    assert_eq!(Mode::Visual(VisualMode::Character).name(), "VISUAL");
    assert_eq!(Mode::Visual(VisualMode::Line).name(), "V-LINE");
    assert_eq!(Mode::Visual(VisualMode::Block).name(), "V-BLOCK");
    assert_eq!(Mode::Command.name(), "COMMAND");
}

