//! Vim-like modal editing state: modes, a count accumulator, a pending
//! operator, pending keys, the active register and the last search and find.

use crate::strings::{dec_chars, push_dec_chars, string_push};
use vstd::prelude::*;

verus! {

/// Editing operators that wait for a motion.
#[derive(Debug, Clone, PartialEq, Eq)]
pub enum Operator {
    Delete,
    Yank,
    Change,
    IndentRight,
    IndentLeft,
    Format,
    Fold,
    Custom(String),
}

/// The operator a key names: `d y c > < = z`.
pub open spec fn operator_of(c: char) -> Option<Operator> {
    if c == 'd' {
        Some(Operator::Delete)
    } else if c == 'y' {
        Some(Operator::Yank)
    } else if c == 'c' {
        Some(Operator::Change)
    } else if c == '>' {
        Some(Operator::IndentRight)
    } else if c == '<' {
        Some(Operator::IndentLeft)
    } else if c == '=' {
        Some(Operator::Format)
    } else if c == 'z' {
        Some(Operator::Fold)
    } else {
        None
    }
}

/// The key of an operator; `?` for a custom one.
pub open spec fn operator_char(op: Operator) -> char {
    match op {
        Operator::Delete => 'd',
        Operator::Yank => 'y',
        Operator::Change => 'c',
        Operator::IndentRight => '>',
        Operator::IndentLeft => '<',
        Operator::Format => '=',
        Operator::Fold => 'z',
        Operator::Custom(_) => '?',
    }
}

impl Operator {
    /// Parse an operator key.
    pub fn from_char(c: char) -> (r: Option<Self>)
        ensures
            r == operator_of(c),
    {
        match c {
            'd' => Some(Operator::Delete),
            'y' => Some(Operator::Yank),
            'c' => Some(Operator::Change),
            '>' => Some(Operator::IndentRight),
            '<' => Some(Operator::IndentLeft),
            '=' => Some(Operator::Format),
            'z' => Some(Operator::Fold),
            _ => None,
        }
    }

    /// The operator's key.
    pub fn to_char(&self) -> (r: char)
        ensures
            r == operator_char(*self),
    {
        match self {
            Operator::Delete => 'd',
            Operator::Yank => 'y',
            Operator::Change => 'c',
            Operator::IndentRight => '>',
            Operator::IndentLeft => '<',
            Operator::Format => '=',
            Operator::Fold => 'z',
            Operator::Custom(_) => '?',
        }
    }
}

/// Cursor motions and text objects.
#[derive(Debug, Clone, PartialEq, Eq)]
pub enum Motion {
    Left,
    Right,
    Down,
    Up,
    WordStart,
    WordEnd,
    WordBack,
    BigWordStart,
    BigWordEnd,
    BigWordBack,
    LineStart,
    FirstNonBlank,
    LineEnd,
    DocumentStart,
    DocumentEnd,
    FindChar(char),
    FindCharBack(char),
    TillChar(char),
    TillCharBack(char),
    RepeatFind,
    RepeatFindReverse,
    NextMatch,
    PrevMatch,
    InnerWord,
    AWord,
    InnerBigWord,
    ABigWord,
    InnerParagraph,
    AParagraph,
    Custom(String),
}

impl Motion {
    /// Whether this selects a text object rather than moving the cursor.
    pub fn is_text_object(&self) -> (r: bool)
        ensures
            r == (self is InnerWord || self is AWord || self is InnerBigWord || self is ABigWord
                || self is InnerParagraph || self is AParagraph || self is Custom),
    {
        match self {
            Motion::InnerWord | Motion::AWord | Motion::InnerBigWord | Motion::ABigWord
            | Motion::InnerParagraph | Motion::AParagraph | Motion::Custom(_) => true,
            _ => false,
        }
    }
}

/// Visual selection kinds.
#[derive(Debug, Clone, Copy, PartialEq, Eq, Structural)]
pub enum VisualMode {
    Character,
    Line,
    Block,
}

/// Search directions.
#[derive(Debug, Clone, Copy, PartialEq, Eq, Structural)]
pub enum SearchDirection {
    Forward,
    Backward,
}

/// Editing modes.
#[derive(Debug, Clone, Copy, PartialEq, Eq, Structural)]
pub enum Mode {
    Normal,
    Visual(VisualMode),
    Insert,
    Command,
    Search(SearchDirection),
}

impl Default for Mode {
    fn default() -> (r: Self)
        ensures
            r == Mode::Normal,
    {
        Mode::Normal
    }
}

impl Mode {
    /// Whether this is one of the visual modes.
    pub fn is_visual(&self) -> (r: bool)
        ensures
            r == (*self is Visual),
    {
        match self {
            Mode::Visual(_) => true,
            _ => false,
        }
    }

    /// Display name.
    pub fn name(&self) -> (r: &'static str)
        ensures
            r@ == match *self {
                Mode::Normal => "NORMAL"@,
                Mode::Visual(VisualMode::Character) => "VISUAL"@,
                Mode::Visual(VisualMode::Line) => "V-LINE"@,
                Mode::Visual(VisualMode::Block) => "V-BLOCK"@,
                Mode::Insert => "INSERT"@,
                Mode::Command => "COMMAND"@,
                Mode::Search(SearchDirection::Forward) => "SEARCH"@,
                Mode::Search(SearchDirection::Backward) => "SEARCH?"@,
            },
    {
        match self {
            Mode::Normal => "NORMAL",
            Mode::Visual(VisualMode::Character) => "VISUAL",
            Mode::Visual(VisualMode::Line) => "V-LINE",
            Mode::Visual(VisualMode::Block) => "V-BLOCK",
            Mode::Insert => "INSERT",
            Mode::Command => "COMMAND",
            Mode::Search(SearchDirection::Forward) => "SEARCH",
            Mode::Search(SearchDirection::Backward) => "SEARCH?",
        }
    }
}

/// Modal editing state.
#[derive(Debug)]
pub struct ModalState {
    pub mode: Mode,
    pub count: Option<usize>,
    pub pending_operator: Option<Operator>,
    pub pending_keys: String,
    /// Active register, `"` by default.
    pub register: char,
    pub last_search: Option<String>,
    pub last_search_direction: SearchDirection,
    /// Last find: the character, whether it was a till, whether backward.
    pub last_find_char: Option<(char, bool, bool)>,
}

impl Default for ModalState {
    fn default() -> (r: Self)
        ensures
            r.fresh(),
    {
        Self::new()
    }
}

impl ModalState {
    /// A state with nothing pending.
    pub open spec fn nothing_pending(&self) -> bool {
        &&& self.count is None
        &&& self.pending_operator is None
        &&& self.pending_keys@.len() == 0
        &&& self.register == '"'
    }

    /// The state `new` returns.
    pub open spec fn fresh(&self) -> bool {
        &&& self.mode == Mode::Normal
        &&& self.nothing_pending()
        &&& self.last_search is None
        &&& self.last_search_direction == SearchDirection::Forward
        &&& self.last_find_char is None
    }

    /// Create a new modal state in normal mode.
    pub fn new() -> (r: Self)
        ensures
            r.fresh(),
    {
        ModalState {
            mode: Mode::Normal,
            count: None,
            pending_operator: None,
            pending_keys: String::new(),
            register: '"',
            last_search: None,
            last_search_direction: SearchDirection::Forward,
            last_find_char: None,
        }
    }

    /// Current mode.
    pub fn mode(&self) -> (r: Mode)
        ensures
            r == self.mode,
    {
        self.mode
    }

    /// Switch mode; leaving for a non-visual mode clears everything pending.
    pub fn set_mode(&mut self, mode: Mode)
        ensures
            final(self).mode == mode,
            !(mode is Visual) ==> final(self).nothing_pending(),
            mode is Visual ==> final(self).count == old(self).count && final(self).pending_operator
                == old(self).pending_operator && final(self).pending_keys@ == old(self).pending_keys@
                && final(self).register == old(self).register,
            final(self).last_search == old(self).last_search,
            final(self).last_search_direction == old(self).last_search_direction,
            final(self).last_find_char == old(self).last_find_char,
    {
        self.mode = mode;
        if !mode.is_visual() {
            self.clear_pending();
        }
    }

    /// Enter normal mode.
    pub fn enter_normal(&mut self)
        ensures
            final(self).mode == Mode::Normal,
            final(self).nothing_pending(),
            final(self).last_search == old(self).last_search,
    {
        self.set_mode(Mode::Normal);
    }

    /// Enter insert mode.
    pub fn enter_insert(&mut self)
        ensures
            final(self).mode == Mode::Insert,
            final(self).nothing_pending(),
            final(self).last_search == old(self).last_search,
    {
        self.set_mode(Mode::Insert);
    }

    /// Enter characterwise visual mode; pending state is kept.
    pub fn enter_visual(&mut self)
        ensures
            final(self).mode == Mode::Visual(VisualMode::Character),
            final(self).count == old(self).count,
            final(self).register == old(self).register,
    {
        self.set_mode(Mode::Visual(VisualMode::Character));
    }

    /// Enter linewise visual mode; pending state is kept.
    pub fn enter_visual_line(&mut self)
        ensures
            final(self).mode == Mode::Visual(VisualMode::Line),
            final(self).count == old(self).count,
            final(self).register == old(self).register,
    {
        self.set_mode(Mode::Visual(VisualMode::Line));
    }

    /// Enter blockwise visual mode; pending state is kept.
    pub fn enter_visual_block(&mut self)
        ensures
            final(self).mode == Mode::Visual(VisualMode::Block),
            final(self).count == old(self).count,
            final(self).register == old(self).register,
    {
        self.set_mode(Mode::Visual(VisualMode::Block));
    }

    /// Enter command-line mode.
    pub fn enter_command(&mut self)
        ensures
            final(self).mode == Mode::Command,
            final(self).nothing_pending(),
    {
        self.set_mode(Mode::Command);
    }

    /// Enter search mode in a direction.
    pub fn enter_search(&mut self, direction: SearchDirection)
        ensures
            final(self).mode == Mode::Search(direction),
            final(self).nothing_pending(),
    {
        self.set_mode(Mode::Search(direction));
    }

    /// The count, 1 when none was typed.
    pub fn count(&self) -> (r: usize)
        ensures
            r == match self.count {
                Some(n) => n,
                None => 1,
            },
    {
        match self.count {
            Some(n) => n,
            None => 1,
        }
    }

    /// The typed count, if any.
    pub fn count_opt(&self) -> (r: Option<usize>)
        ensures
            r == self.count,
    {
        self.count
    }

    /// Append a typed digit to the count; other characters are ignored.
    pub fn accumulate_count(&mut self, digit: char)
        requires
            match old(self).count {
                Some(n) => n * 10 + 9 <= usize::MAX,
                None => true,
            },
        ensures
            ('0' <= digit <= '9') ==> final(self).count == Some((match old(self).count {
                Some(n) => n,
                None => 0,
            } * 10 + (digit as u32 - '0' as u32)) as usize),
            !('0' <= digit <= '9') ==> final(self).count == old(self).count,
            final(self).mode == old(self).mode,
            final(self).pending_operator == old(self).pending_operator,
            final(self).register == old(self).register,
    {
        if '0' <= digit && digit <= '9' {
            let d = (digit as u32 - '0' as u32) as usize;
            let current = match self.count {
                Some(n) => n,
                None => 0,
            };
            self.count = Some(current * 10 + d);
        }
    }

    /// Forget the typed count.
    pub fn clear_count(&mut self)
        ensures
            final(self).count is None,
            final(self).mode == old(self).mode,
            final(self).pending_operator == old(self).pending_operator,
            final(self).register == old(self).register,
    {
        self.count = None;
    }

    /// The operator waiting for a motion, if any.
    pub fn pending_operator(&self) -> (r: Option<&Operator>)
        ensures
            r == match self.pending_operator {
                Some(op) => Some(&op),
                None => None::<&Operator>,
            },
    {
        self.pending_operator.as_ref()
    }

    /// Set the operator waiting for a motion.
    pub fn set_pending_operator(&mut self, op: Operator)
        ensures
            final(self).pending_operator == Some(op),
            final(self).count == old(self).count,
            final(self).mode == old(self).mode,
            final(self).register == old(self).register,
    {
        self.pending_operator = Some(op);
    }

    /// Take the pending operator, leaving none.
    pub fn take_pending_operator(&mut self) -> (r: Option<Operator>)
        ensures
            r == old(self).pending_operator,
            final(self).pending_operator is None,
            final(self).count == old(self).count,
            final(self).mode == old(self).mode,
    {
        self.pending_operator.take()
    }

    /// Whether an operator is pending.
    pub fn has_pending_operator(&self) -> (r: bool)
        ensures
            r == self.pending_operator is Some,
    {
        self.pending_operator.is_some()
    }

    /// Keys typed towards a multi-key command.
    pub fn pending_keys(&self) -> (r: &str)
        ensures
            r@ == self.pending_keys@,
    {
        self.pending_keys.as_str()
    }

    /// Record a pending key.
    pub fn push_pending_key(&mut self, c: char)
        ensures
            final(self).pending_keys@ == old(self).pending_keys@.push(c),
            final(self).count == old(self).count,
            final(self).pending_operator == old(self).pending_operator,
            final(self).mode == old(self).mode,
    {
        string_push(&mut self.pending_keys, c);
    }

    /// Forget the pending keys.
    pub fn clear_pending_keys(&mut self)
        ensures
            final(self).pending_keys@.len() == 0,
            final(self).count == old(self).count,
            final(self).pending_operator == old(self).pending_operator,
    {
        self.pending_keys = String::new();
    }

    /// The active register.
    pub fn register(&self) -> (r: char)
        ensures
            r == self.register,
    {
        self.register
    }

    /// Select a register.
    pub fn set_register(&mut self, register: char)
        ensures
            final(self).register == register,
            final(self).count == old(self).count,
            final(self).mode == old(self).mode,
    {
        self.register = register;
    }

    /// Back to the default register `"`.
    pub fn reset_register(&mut self)
        ensures
            final(self).register == '"',
            final(self).count == old(self).count,
            final(self).mode == old(self).mode,
    {
        self.register = '"';
    }

    /// Clear the count, the pending operator and keys, and the register.
    pub fn clear_pending(&mut self)
        ensures
            final(self).nothing_pending(),
            final(self).mode == old(self).mode,
            final(self).last_search == old(self).last_search,
            final(self).last_search_direction == old(self).last_search_direction,
            final(self).last_find_char == old(self).last_find_char,
    {
        self.count = None;
        self.pending_operator = None;
        self.pending_keys = String::new();
        self.register = '"';
    }

    /// Remember the last search.
    pub fn set_last_search(&mut self, pattern: String, direction: SearchDirection)
        ensures
            final(self).last_search == Some(pattern),
            final(self).last_search_direction == direction,
            final(self).mode == old(self).mode,
    {
        self.last_search = Some(pattern);
        self.last_search_direction = direction;
    }

    /// The last search pattern.
    pub fn last_search(&self) -> (r: Option<&str>)
        ensures
            match self.last_search {
                Some(p) => r is Some && r->0@ == p@,
                None => r is None,
            },
    {
        match &self.last_search {
            Some(p) => Some(p.as_str()),
            None => None,
        }
    }

    /// Direction of the last search.
    pub fn last_search_direction(&self) -> (r: SearchDirection)
        ensures
            r == self.last_search_direction,
    {
        self.last_search_direction
    }

    /// Remember the last find.
    pub fn set_last_find(&mut self, c: char, is_till: bool, is_backward: bool)
        ensures
            final(self).last_find_char == Some((c, is_till, is_backward)),
            final(self).mode == old(self).mode,
    {
        self.last_find_char = Some((c, is_till, is_backward));
    }

    /// The last find.
    pub fn last_find(&self) -> (r: Option<(char, bool, bool)>)
        ensures
            r == self.last_find_char,
    {
        self.last_find_char
    }

    /// Status line text: the count, the pending operator's key, the pending keys.
    pub fn status(&self) -> (r: String)
        ensures
            r@ == (match self.count {
                Some(n) => dec_chars(n as nat),
                None => Seq::empty(),
            }) + (match self.pending_operator {
                Some(op) => seq![operator_char(op)],
                None => Seq::empty(),
            }) + self.pending_keys@,
    {
        let mut s = String::new();
        if let Some(count) = self.count {
            push_dec_chars(&mut s, count);
        }
        if let Some(op) = &self.pending_operator {
            string_push(&mut s, op.to_char());
        }
        s.append(self.pending_keys.as_str());
        s
    }
}

/// Editor-side actions that modal key handling drives.
pub trait ModalHandler {
    fn execute_motion(&mut self, motion: Motion, count: usize) -> bool;

    fn execute_operator(&mut self, op: Operator, motion: Motion, count: usize) -> bool;

    fn enter_insert(&mut self);

    fn exit_insert(&mut self);

    fn position(&self) -> usize;

    fn set_position(&mut self, pos: usize);
}

/// Result of handling one key.
#[derive(Debug, Clone, PartialEq, Eq)]
pub enum KeyResult {
    Consumed,
    Pending,
    Motion(Motion),
    Operation(Operator, Motion),
    ModeChange(Mode),
    Unhandled,
}

} // verus!
