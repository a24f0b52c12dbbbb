//! Input events and frame pacing.

use vstd::prelude::*;

verus! {

/// Keyboard key representation.
#[derive(Debug, Clone, Copy, PartialEq, Eq, Hash, Structural)]
pub enum Key {
    Char(char),
    F(u8),
    Ctrl(char),
    Alt(char),
    Up,
    Down,
    Left,
    Right,
    Home,
    End,
    PageUp,
    PageDown,
    BackTab,
    Backspace,
    Delete,
    Insert,
    Enter,
    Tab,
    Esc,
    Null,
}

/// Mouse button.
#[derive(Debug, Clone, Copy, PartialEq, Eq, Structural)]
pub enum MouseButton {
    Left,
    Right,
    Middle,
}

/// Mouse event types; coordinates are column then row.
#[derive(Debug, Clone, Copy, PartialEq, Eq, Structural)]
pub enum MouseEvent {
    Press(MouseButton, u16, u16),
    Release(u16, u16),
    Hold(u16, u16),
    ScrollUp(u16, u16),
    ScrollDown(u16, u16),
}

/// UI events.
#[derive(Debug, Clone, PartialEq, Eq)]
pub enum Event {
    /// Keyboard event
    Key(Key),
    /// Mouse event
    Mouse(MouseEvent),
    /// Terminal resized (new cols, new rows)
    Resize(u16, u16),
    /// Focus gained
    FocusGained,
    /// Focus lost
    FocusLost,
    /// Pasted text
    Paste(String),
}

/// Receives events; by default ignores them.
pub trait EventHandler {
    /// Handle an event; true when consumed.
    fn handle_event(&mut self, event: &Event) -> bool {
        false
    }

    fn on_focus(&mut self) {
    }

    fn on_blur(&mut self) {
    }
}

/// Paces frames at a target rate. Times are nanoseconds on a monotonic
/// clock that the caller reads.
#[derive(Debug, Clone, Copy, PartialEq, Eq, Structural)]
pub struct FrameTimer {
    pub target_fps: u32,
    /// Nanoseconds per frame.
    pub frame_duration: u64,
    /// When the last frame started.
    pub last_frame: u64,
}

/// Nanoseconds elapsed from `since` to `now`; 0 if the clock reads earlier.
pub open spec fn elapsed(since: u64, now: u64) -> int {
    if now >= since {
        now - since
    } else {
        0
    }
}

impl FrameTimer {
    /// A timer for `fps` frames per second whose last frame started at `now`.
    pub fn new(fps: u32, now: u64) -> (r: Self)
        requires
            fps > 0,
        ensures
            r.target_fps == fps,
            r.frame_duration == 1_000_000_000int / fps as int,
            r.last_frame == now,
    {
        FrameTimer { target_fps: fps, frame_duration: 1_000_000_000 / fps as u64, last_frame: now }
    }

    /// Time left until the next frame is due, zero when it already is.
    pub fn time_to_next_frame(&self, now: u64) -> (r: u64)
        ensures
            r == if elapsed(self.last_frame, now) >= self.frame_duration {
                0
            } else {
                self.frame_duration - elapsed(self.last_frame, now)
            },
    {
        let e = if now >= self.last_frame { now - self.last_frame } else { 0 };
        if e >= self.frame_duration {
            0
        } else {
            self.frame_duration - e
        }
    }

    /// Start a frame at `now`; true when it came no later than one frame
    /// after the previous one.
    pub fn tick(&mut self, now: u64) -> (r: bool)
        ensures
            r == (elapsed(old(self).last_frame, now) <= old(self).frame_duration),
            final(self).last_frame == now,
            final(self).frame_duration == old(self).frame_duration,
            final(self).target_fps == old(self).target_fps,
    {
        let e = if now >= self.last_frame { now - self.last_frame } else { 0 };
        self.last_frame = now;
        e <= self.frame_duration
    }

    /// Whether a frame is due at `now`.
    pub fn frame_due(&self, now: u64) -> (r: bool)
        ensures
            r == (elapsed(self.last_frame, now) >= self.frame_duration),
    {
        let e = if now >= self.last_frame { now - self.last_frame } else { 0 };
        e >= self.frame_duration
    }
}

} // verus!
