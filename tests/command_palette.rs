use termgfx::command_palette::{CommandExecutor, CommandMode, CommandPalette, CommandResult};

struct MockExecutor;

impl CommandExecutor for MockExecutor {
    fn execute(&mut self, _command: &str, _mode: CommandMode) -> CommandResult {
        CommandResult::Success(None)
    }

    fn complete(&self, partial: &str, _mode: CommandMode) -> Vec<String> {
        let commands = vec!["write", "quit", "wq", "help", "set"];
        commands
            .into_iter()
            .filter(|c| c.starts_with(partial))
            .map(|s| s.to_string())
            .collect()
    }
}

#[test]
fn test_command_palette_creation() {
    let palette = CommandPalette::new();
    assert!(!palette.is_active());
    assert_eq!(palette.mode(), CommandMode::Ex);
}

#[test]
fn test_activate_deactivate() {
    let mut palette = CommandPalette::new();

    palette.activate(CommandMode::Search);
    assert!(palette.is_active());
    assert_eq!(palette.mode(), CommandMode::Search);

    palette.deactivate();
    assert!(!palette.is_active());
}

#[test]
fn test_mode_prompts() {
    assert_eq!(CommandMode::Ex.prompt(), ":");
    assert_eq!(CommandMode::Search.prompt(), "/");
    assert_eq!(CommandMode::SearchBack.prompt(), "?");
    assert_eq!(CommandMode::Shell.prompt(), "!");
}

#[test]
fn test_history_navigation() {
    let mut palette = CommandPalette::new();

    // Add some history
    palette.activate(CommandMode::Ex);
    palette.input.set_value("cmd1");
    palette.submit();

    palette.activate(CommandMode::Ex);
    palette.input.set_value("cmd2");
    palette.submit();

    palette.activate(CommandMode::Ex);
    palette.input.set_value("cmd3");
    palette.submit();

    // Navigate history
    palette.activate(CommandMode::Ex);
    palette.history_prev();
    assert_eq!(palette.value(), "cmd3");

    palette.history_prev();
    assert_eq!(palette.value(), "cmd2");

    palette.history_next();
    assert_eq!(palette.value(), "cmd3");
}

#[test]
fn test_completion() {
    let mut palette = CommandPalette::new();
    let executor = MockExecutor;

    palette.activate(CommandMode::Ex);
    palette.input.set_value("w");
    palette.update_completions(&executor);

    assert_eq!(palette.completions(), &["write", "wq"]);

    palette.complete_next();
    assert_eq!(palette.value(), "write");

    palette.complete_next();
    assert_eq!(palette.value(), "wq");

    palette.complete_prev();
    assert_eq!(palette.value(), "write");
}

