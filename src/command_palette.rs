//! Vim-style command line: ex commands, searches and shell commands, with
//! history and completion.

use crate::escape::cursor_to;
use crate::event::{Event, Key};
use crate::layout::Rect;
use crate::render::{reset_style, Renderer};
use vstd::utf8::encode_utf8;
use crate::strings::str_eq;
use crate::text_input::TextInput;
use vstd::prelude::*;
use vstd::string::StringExecFns;

verus! {

/// What the command line is for.
#[derive(Debug, Clone, Copy, PartialEq, Eq, Structural)]
pub enum CommandMode {
    Ex,
    Search,
    SearchBack,
    Shell,
}

impl CommandMode {
    /// The prompt character.
    pub fn prompt(&self) -> (r: &'static str)
        ensures
            r@ == match *self {
                CommandMode::Ex => ":"@,
                CommandMode::Search => "/"@,
                CommandMode::SearchBack => "?"@,
                CommandMode::Shell => "!"@,
            },
    {
        match self {
            CommandMode::Ex => ":",
            CommandMode::Search => "/",
            CommandMode::SearchBack => "?",
            CommandMode::Shell => "!",
        }
    }

    /// Display name.
    pub fn name(&self) -> (r: &'static str)
        ensures
            r@ == match *self {
                CommandMode::Ex => "Ex"@,
                CommandMode::Search => "Search"@,
                CommandMode::SearchBack => "SearchBack"@,
                CommandMode::Shell => "Shell"@,
            },
    {
        match self {
            CommandMode::Ex => "Ex",
            CommandMode::Search => "Search",
            CommandMode::SearchBack => "SearchBack",
            CommandMode::Shell => "Shell",
        }
    }
}

/// Outcome of running a command.
#[derive(Debug, Clone)]
pub enum CommandResult {
    Success(Option<String>),
    Error(String),
    NotFound,
    Empty,
}

/// Runs and completes commands; implemented by the application.
pub trait CommandExecutor {
    fn execute(&mut self, command: &str, mode: CommandMode) -> CommandResult;

    fn complete(&self, partial: &str, mode: CommandMode) -> Vec<String>;
}

/// The command line.
pub struct CommandPalette {
    pub input: TextInput,
    pub mode: CommandMode,
    /// Submitted commands, oldest first.
    pub history: Vec<String>,
    /// Entry shown while browsing the history.
    pub history_index: Option<usize>,
    pub max_history: usize,
    pub completions: Vec<String>,
    pub completion_index: Option<usize>,
    pub active: bool,
    pub last_error: Option<String>,
    pub last_message: Option<String>,
    pub dirty: bool,
    /// Input typed before history browsing began.
    pub saved_input: Option<String>,
}

impl CommandPalette {
    /// The input is well formed and the browsing positions are in range.
    pub open spec fn wf(&self) -> bool {
        &&& self.input.wf()
        &&& self.history_index matches Some(i) ==> i < self.history@.len()
        &&& self.completion_index matches Some(i) ==> i < self.completions@.len()
        &&& self.max_history >= 1
        &&& self.history@.len() <= self.max_history
    }

    /// `n` is this palette after showing the previous (older) history
    /// entry: browsing starts at the newest and stops at the oldest; the
    /// typed input is remembered when browsing starts.
    pub open spec fn browsed_back(self, n: Self) -> bool {
        &&& n.history == self.history
        &&& self.history@.len() == 0 ==> n.input == self.input && n.history_index == self.history_index
        &&& self.history@.len() > 0 ==> n.history_index == Some(match self.history_index {
            None => (self.history@.len() - 1) as usize,
            Some(i) => if i > 0 { (i - 1) as usize } else { 0usize },
        })
        &&& self.history@.len() > 0 && self.history_index != Some(0usize) ==> n.input.chars@
            == self.history@[n.history_index->0 as int]@
        &&& self.history@.len() > 0 && self.history_index is None ==> n.saved_input is Some
            && n.saved_input->0@ == self.input.chars@
    }

    /// `n` is this palette after showing the next (newer) history entry;
    /// past the newest the remembered input comes back.
    pub open spec fn browsed_forward(self, n: Self) -> bool {
        &&& n.history == self.history
        &&& self.history_index is None ==> n.input == self.input && n.history_index is None
        &&& match self.history_index {
            Some(i) => if i + 1 < self.history@.len() {
                n.history_index == Some((i + 1) as usize) && n.input.chars@ == self.history@[i + 1]@
            } else {
                n.history_index is None && n.input.chars@ == match self.saved_input {
                    Some(s) => s@,
                    None => Seq::<char>::empty(),
                }
            },
            None => true,
        }
    }

    /// `n` is this palette after selecting the next completion, wrapping.
    pub open spec fn completed_next(self, n: Self) -> bool {
        &&& n.completions == self.completions
        &&& self.completions@.len() == 0 ==> n.input == self.input
        &&& self.completions@.len() > 0 ==> n.completion_index == Some(match self.completion_index {
            None => 0usize,
            Some(i) => ((i + 1) % self.completions@.len() as int) as usize,
        }) && n.input.chars@ == self.completions@[n.completion_index->0 as int]@
    }

    /// `n` is this palette after selecting the previous completion, wrapping.
    pub open spec fn completed_prev(self, n: Self) -> bool {
        &&& n.completions == self.completions
        &&& self.completions@.len() == 0 ==> n.input == self.input
        &&& self.completions@.len() > 0 ==> n.completion_index == Some(match self.completion_index {
            Some(i) => if i > 0 { (i - 1) as usize } else { (self.completions@.len() - 1) as usize },
            None => (self.completions@.len() - 1) as usize,
        }) && n.input.chars@ == self.completions@[n.completion_index->0 as int]@
    }

    /// An inactive ex command line with empty history.
    pub fn new() -> (r: Self)
        ensures
            r.wf(),
            !r.active,
            r.mode == CommandMode::Ex,
            r.history@.len() == 0,
            r.max_history == 100,
            r.input.chars@.len() == 0,
            r.history_index is None,
            r.completions@.len() == 0,
            r.completion_index is None,
            r.last_error is None,
            r.last_message is None,
            r.saved_input is None,
    {
        CommandPalette {
            input: TextInput::new(":"),
            mode: CommandMode::Ex,
            history: Vec::new(),
            history_index: None,
            max_history: 100,
            completions: Vec::new(),
            completion_index: None,
            active: false,
            last_error: None,
            last_message: None,
            dirty: true,
            saved_input: None,
        }
    }

    /// Open the command line in a mode, with empty input and no error.
    pub fn activate(&mut self, mode: CommandMode)
        requires
            old(self).wf(),
        ensures
            final(self).wf(),
            final(self).active,
            final(self).mode == mode,
            final(self).input.chars@.len() == 0,
            final(self).input.focused,
            final(self).history == old(self).history,
            final(self).history_index is None,
            final(self).completions@.len() == 0,
            final(self).last_error is None,
            final(self).saved_input is None,
            final(self).max_history == old(self).max_history,
            final(self).last_message == old(self).last_message,
    {
        self.mode = mode;
        self.input = TextInput::new(mode.prompt());
        self.input.on_focus();
        self.active = true;
        self.history_index = None;
        self.completions = Vec::new();
        self.completion_index = None;
        self.last_error = None;
        self.saved_input = None;
        self.dirty = true;
    }

    /// Close the command line, clearing its input.
    pub fn deactivate(&mut self)
        requires
            old(self).wf(),
        ensures
            final(self).wf(),
            !final(self).active,
            !final(self).input.focused,
            final(self).input.chars@.len() == 0,
            final(self).history == old(self).history,
            final(self).history_index == old(self).history_index,
            final(self).completions@.len() == 0,
            final(self).mode == old(self).mode,
            final(self).max_history == old(self).max_history,
            final(self).last_error == old(self).last_error,
            final(self).last_message == old(self).last_message,
    {
        self.active = false;
        self.input.on_blur();
        self.input.clear();
        self.completions = Vec::new();
        self.completion_index = None;
        self.saved_input = None;
        self.dirty = true;
    }

    /// Whether the command line is open.
    pub fn is_active(&self) -> (r: bool)
        ensures
            r == self.active,
    {
        self.active
    }

    /// The current mode.
    pub fn mode(&self) -> (r: CommandMode)
        ensures
            r == self.mode,
    {
        self.mode
    }

    /// The typed text.
    pub fn value(&self) -> (r: &str)
        requires
            self.wf(),
        ensures
            r@ == self.input.chars@,
    {
        self.input.value()
    }

    /// The last error.
    pub fn last_error(&self) -> (r: Option<&str>)
        ensures
            match self.last_error {
                Some(e) => r is Some && r->0@ == e@,
                None => r is None,
            },
    {
        match &self.last_error {
            Some(e) => Some(e.as_str()),
            None => None,
        }
    }

    /// The last message.
    pub fn last_message(&self) -> (r: Option<&str>)
        ensures
            match self.last_message {
                Some(m) => r is Some && r->0@ == m@,
                None => r is None,
            },
    {
        match &self.last_message {
            Some(m) => Some(m.as_str()),
            None => None,
        }
    }

    /// Forget the last error.
    pub fn clear_error(&mut self)
        ensures
            *final(self) == (CommandPalette { last_error: None, dirty: true, ..*old(self) }),
            old(self).wf() ==> final(self).wf(),
    {
        self.last_error = None;
        self.dirty = true;
    }

    /// Forget the last message.
    pub fn clear_message(&mut self)
        ensures
            *final(self) == (CommandPalette { last_message: None, dirty: true, ..*old(self) }),
            old(self).wf() ==> final(self).wf(),
    {
        self.last_message = None;
        self.dirty = true;
    }

    /// Show an error.
    pub fn set_error(&mut self, error: &str)
        ensures
            final(self).last_error is Some && final(self).last_error->0@ == error@,
            *final(self) == (CommandPalette { last_error: final(self).last_error, dirty: true, ..*old(self) }),
            old(self).wf() ==> final(self).wf(),
    {
        self.last_error = Some(String::from_str(error));
        self.dirty = true;
    }

    /// Show a message.
    pub fn set_message(&mut self, message: &str)
        ensures
            final(self).last_message is Some && final(self).last_message->0@ == message@,
            *final(self) == (CommandPalette { last_message: final(self).last_message, dirty: true, ..*old(self) }),
            old(self).wf() ==> final(self).wf(),
    {
        self.last_message = Some(String::from_str(message));
        self.dirty = true;
    }

    /// The history after submitting `cmd`: appended unless it repeats the
    /// newest entry, the oldest entry dropped beyond the limit.
    pub open spec fn history_after(h: Seq<String>, cmd: Seq<char>, max: usize) -> Seq<Seq<char>> {
        let v = h.map_values(|s: String| s@);
        if v.len() > 0 && v.last() == cmd {
            v
        } else if v.len() + 1 > max {
            v.push(cmd).drop_first()
        } else {
            v.push(cmd)
        }
    }

    /// Submit the typed command: it is returned and recorded in the history,
    /// and the command line closes. An empty command only closes it.
    pub fn submit(&mut self) -> (r: Option<String>)
        requires
            old(self).wf(),
        ensures
            final(self).wf(),
            !final(self).active,
            old(self).input.chars@.len() == 0 ==> r is None && final(self).history == old(self).history,
            old(self).input.chars@.len() > 0 ==> r is Some && r->0@ == old(self).input.chars@
                && final(self).history@.map_values(|s: String| s@) == Self::history_after(
                old(self).history@,
                old(self).input.chars@,
                old(self).max_history,
            ),
            final(self).input.chars@.len() == 0,
            final(self).completions@.len() == 0,
            final(self).max_history == old(self).max_history,
            final(self).mode == old(self).mode,
            final(self).last_error == old(self).last_error,
            final(self).last_message == old(self).last_message,
    {
        let command = String::from_str(self.input.value());
        if self.input.is_empty() {
            self.deactivate();
            return None;
        }
        let n = self.history.len();
        let repeat = n > 0 && str_eq(self.history[n - 1].as_str(), command.as_str());
        let ghost v = old(self).history@.map_values(|s: String| s@);
        if !repeat {
            self.history.push(command.clone());
            if self.history.len() > self.max_history {
                self.history.remove(0);
            }
            self.history_index = None;
        } else {
            assert(v.last() == command@);
        }
        assert(self.history@.map_values(|s: String| s@) =~= Self::history_after(
            old(self).history@,
            old(self).input.chars@,
            old(self).max_history,
        ));
        self.deactivate();
        Some(command)
    }

    /// Close without submitting.
    pub fn cancel(&mut self)
        requires
            old(self).wf(),
        ensures
            final(self).wf(),
            !final(self).active,
            final(self).history == old(self).history,
            final(self).input.chars@.len() == 0,
            final(self).completions@.len() == 0,
            final(self).mode == old(self).mode,
            final(self).max_history == old(self).max_history,
            final(self).last_error == old(self).last_error,
            final(self).last_message == old(self).last_message,
    {
        self.deactivate();
    }

    /// Show the previous (older) history entry, remembering the typed input
    /// when browsing starts; stays at the oldest.
    pub fn history_prev(&mut self)
        requires
            old(self).wf(),
        ensures
            final(self).wf(),
            old(self).browsed_back(*final(self)),
    {
        if self.history.len() == 0 {
            return;
        }
        if self.history_index.is_none() {
            self.saved_input = Some(String::from_str(self.input.value()));
        }
        match self.history_index {
            None => {
                let last = self.history.len() - 1;
                self.history_index = Some(last);
                self.input.set_value(self.history[last].as_str());
            },
            Some(0) => {},
            Some(idx) => {
                self.history_index = Some(idx - 1);
                self.input.set_value(self.history[idx - 1].as_str());
            },
        }
        self.dirty = true;
    }

    /// Show the next (newer) history entry; past the newest, restore the
    /// input typed before browsing.
    pub fn history_next(&mut self)
        requires
            old(self).wf(),
        ensures
            final(self).wf(),
            old(self).browsed_forward(*final(self)),
    {
        match self.history_index {
            None => {},
            Some(idx) => {
                if idx >= self.history.len() - 1 {
                    self.history_index = None;
                    match self.saved_input.take() {
                        Some(saved) => self.input.set_value(saved.as_str()),
                        None => self.input.clear(),
                    }
                } else {
                    self.history_index = Some(idx + 1);
                    self.input.set_value(self.history[idx + 1].as_str());
                }
            },
        }
        self.dirty = true;
        assert(self.history == old(self).history);
        assert(old(self).history_index is None ==> self.input == old(self).input && self.history_index is None);
        assert(match old(self).history_index {
            Some(i) => if i + 1 < old(self).history@.len() {
                self.history_index == Some((i + 1) as usize) && self.input.chars@ == old(self).history@[i + 1]@
            } else {
                self.history_index is None && self.input.chars@ == match old(self).saved_input {
                    Some(s) => s@,
                    None => Seq::<char>::empty(),
                }
            },
            None => true,
        });
    }

    /// Replace the completions; none is selected.
    pub fn set_completions(&mut self, list: Vec<String>)
        requires
            old(self).wf(),
        ensures
            final(self).wf(),
            *final(self) == (CommandPalette { completions: list, completion_index: None, dirty: true, ..*old(self) }),
    {
        self.completions = list;
        self.completion_index = None;
        self.dirty = true;
    }

    /// Ask the executor for completions of the typed text and take them as
    /// `set_completions` does; whatever the executor answers, nothing else
    /// changes.
    pub fn update_completions<E: CommandExecutor>(&mut self, executor: &E)
        requires
            old(self).wf(),
        ensures
            final(self).wf(),
            *final(self) == (CommandPalette {
                completions: final(self).completions,
                completion_index: None,
                dirty: true,
                ..*old(self)
            }),
    {
        let list = executor.complete(self.input.value(), self.mode);
        self.set_completions(list);
    }

    /// Select the next completion, wrapping around.
    pub fn complete_next(&mut self)
        requires
            old(self).wf(),
        ensures
            final(self).wf(),
            old(self).completed_next(*final(self)),
    {
        let n = self.completions.len();
        if n == 0 {
            return;
        }
        let next = match self.completion_index {
            None => 0,
            Some(idx) => (idx + 1) % n,
        };
        self.completion_index = Some(next);
        self.input.set_value(self.completions[next].as_str());
        self.dirty = true;
    }

    /// Select the previous completion, wrapping around.
    pub fn complete_prev(&mut self)
        requires
            old(self).wf(),
        ensures
            final(self).wf(),
            old(self).completed_prev(*final(self)),
    {
        let n = self.completions.len();
        if n == 0 {
            return;
        }
        let prev = match self.completion_index {
            Some(idx) => if idx > 0 { idx - 1 } else { n - 1 },
            None => n - 1,
        };
        self.completion_index = Some(prev);
        self.input.set_value(self.completions[prev].as_str());
        self.dirty = true;
    }

    /// Number of completions.
    pub fn completion_count(&self) -> (r: usize)
        ensures
            r == self.completions@.len(),
    {
        self.completions.len()
    }

    /// The completions.
    pub fn completions(&self) -> (r: &[String])
        ensures
            r@ == self.completions@,
    {
        self.completions.as_slice()
    }

    /// Handle an event while open: Enter is taken (the caller then calls
    /// `submit`), Escape cancels, Up/Down and Ctrl-P/N browse the history,
    /// Tab and Shift-Tab cycle completions, other keys edit the input and
    /// drop the completions.
    pub fn handle_event(&mut self, event: &Event) -> (r: bool)
        requires
            old(self).wf(),
        ensures
            final(self).wf(),
            !old(self).active ==> !r && final(self).input == old(self).input,
            old(self).active && *event == Event::Key(Key::Enter) ==> r && final(self).input == old(self).input
                && final(self).active,
            old(self).active && *event == Event::Key(Key::Esc) ==> r && !final(self).active
                && final(self).history == old(self).history,
            old(self).active && (*event == Event::Key(Key::Up) || *event == Event::Key(Key::Ctrl('p')))
                ==> r && old(self).browsed_back(*final(self)),
            old(self).active && (*event == Event::Key(Key::Down) || *event == Event::Key(Key::Ctrl('n')))
                ==> r && old(self).browsed_forward(*final(self)),
            old(self).active && *event == Event::Key(Key::Tab) ==> r && old(self).completed_next(*final(self)),
            old(self).active && *event == Event::Key(Key::BackTab) ==> r && old(self).completed_prev(*final(self)),
    {
        if !self.active {
            return false;
        }
        match event {
            Event::Key(key) => match key {
                Key::Enter => true,
                Key::Esc => {
                    self.cancel();
                    true
                },
                Key::Up | Key::Ctrl('p') => {
                    self.history_prev();
                    true
                },
                Key::Down | Key::Ctrl('n') => {
                    self.history_next();
                    true
                },
                Key::Tab => {
                    self.complete_next();
                    true
                },
                Key::BackTab => {
                    self.complete_prev();
                    true
                },
                _ => {
                    let handled = self.input.handle_event(event);
                    if handled {
                        self.completions = Vec::new();
                        self.completion_index = None;
                    }
                    handled
                },
            },
            Event::Paste(_) => self.input.handle_event(event),
            _ => false,
        }
    }

    /// Draw the palette: the input while open; when closed, the last error
    /// in red, else the last message, else nothing.
    pub fn render(&mut self, renderer: &mut Renderer, bounds: Rect)
        requires
            old(self).wf(),
        ensures
            final(self).wf(),
            !final(self).dirty,
            old(self).active ==> final(renderer).pending@ == old(renderer).pending@ + old(self).input.render_bytes(bounds),
            !old(self).active ==> final(renderer).pending@ == old(renderer).pending@ + match old(self).last_error {
                Some(e) => cursor_to(bounds.y as nat, bounds.x as nat) + encode_utf8("\x1b[31m"@) + encode_utf8(e@) + reset_style(),
                None => match old(self).last_message {
                    Some(m) => cursor_to(bounds.y as nat, bounds.x as nat) + encode_utf8(m@),
                    None => Seq::empty(),
                },
            },
    {
        if !self.active {
            match &self.last_error {
                Some(error) => {
                    renderer.move_cursor(bounds.x, bounds.y);
                    renderer.write_styled(error.as_str(), "\x1b[31m");
                },
                None => match &self.last_message {
                    Some(msg) => {
                        renderer.move_cursor(bounds.x, bounds.y);
                        renderer.write_text(msg.as_str());
                    },
                    None => {},
                },
            }
            self.dirty = false;
            return;
        }
        self.input.render(renderer, bounds);
        self.dirty = false;
    }
}

impl Default for CommandPalette {
    fn default() -> (r: Self)
        ensures
            r.wf(),
            !r.active,
    {
        Self::new()
    }
}

} // verus!
