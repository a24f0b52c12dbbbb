//! Terminal geometry, capabilities and the context that combines them.

use crate::strings::{has_substring, str_contains};
use vstd::prelude::*;

verus! {

/// Tmux pane position and size.
#[derive(Debug, Clone, Copy, PartialEq, Eq, Structural)]
pub struct TmuxPaneInfo {
    /// Top row of the pane (0-indexed from terminal top)
    pub top: u16,
    /// Left column of the pane (0-indexed from terminal left)
    pub left: u16,
    /// Width of the pane in columns
    pub width: u16,
    /// Height of the pane in rows
    pub height: u16,
}

/// Terminal geometry and sizing information.
#[derive(Debug, Clone, Copy, PartialEq, Eq, Structural)]
pub struct TerminalGeometry {
    /// Terminal width in columns (characters)
    pub cols: u16,
    /// Terminal height in rows (lines)
    pub rows: u16,
    /// Estimated width in pixels (if detectable)
    pub pixel_width: Option<u32>,
    /// Estimated height in pixels (if detectable)
    pub pixel_height: Option<u32>,
    /// Estimated character width in pixels
    pub char_width: u16,
    /// Estimated character height in pixels
    pub char_height: u16,
}

impl TerminalGeometry {
    /// Geometry of a terminal `cols` by `rows` cells with the given cell size in pixels.
    pub fn with_char_size(cols: u16, rows: u16, char_width: u16, char_height: u16) -> (r: Self)
        ensures
            r.cols == cols,
            r.rows == rows,
            r.char_width == char_width,
            r.char_height == char_height,
            r.pixel_width == Some((cols * char_width) as u32),
            r.pixel_height == Some((rows * char_height) as u32),
    {
        assert(cols * char_width <= 65535 * 65535) by (nonlinear_arith)
            requires
                cols <= 65535,
                char_width <= 65535,
        ;
        assert(rows * char_height <= 65535 * 65535) by (nonlinear_arith)
            requires
                rows <= 65535,
                char_height <= 65535,
        ;
        TerminalGeometry {
            cols,
            rows,
            pixel_width: Some(cols as u32 * char_width as u32),
            pixel_height: Some(rows as u32 * char_height as u32),
            char_width,
            char_height,
        }
    }
}

/// Terminal capability flags.
#[derive(Debug, Clone, Copy, PartialEq, Eq, Structural)]
pub struct TerminalCapabilities {
    /// Supports Kitty graphics protocol
    pub kitty_graphics: bool,
    /// Supports Sixel graphics
    pub sixel: bool,
    /// Supports 24-bit true color
    pub truecolor: bool,
    /// Supports 256 colors
    pub colors_256: bool,
    /// Inside tmux/screen multiplexer
    pub in_multiplexer: bool,
    /// Supports mouse events
    pub mouse: bool,
}

impl TerminalCapabilities {
    /// Capabilities implied by `TERM`, `COLORTERM`, whether `TMUX` and
    /// `KITTY_WINDOW_ID` are set.
    pub fn from_env(term: &str, colorterm: &str, tmux: bool, kitty_window: bool) -> (r: Self)
        ensures
            r.kitty_graphics == (kitty_window || has_substring(term@, "kitty"@)),
            r.sixel == (has_substring(term@, "mlterm"@) || has_substring(term@, "xterm"@)),
            r.truecolor == (has_substring(colorterm@, "truecolor"@) || has_substring(
                colorterm@,
                "24bit"@,
            ) || kitty_window),
            r.colors_256 == (has_substring(term@, "256"@) || r.truecolor),
            r.in_multiplexer == tmux,
            r.mouse,
    {
        let kitty_graphics = kitty_window || str_contains(term, "kitty");
        let sixel = str_contains(term, "mlterm") || str_contains(term, "xterm");
        let truecolor = str_contains(colorterm, "truecolor") || str_contains(colorterm, "24bit")
            || kitty_window;
        let colors_256 = str_contains(term, "256") || truecolor;
        TerminalCapabilities {
            kitty_graphics,
            sixel,
            truecolor,
            colors_256,
            in_multiplexer: tmux,
            mouse: true,
        }
    }

    /// Whether Kitty graphics must pass through a multiplexer.
    pub fn needs_kitty_passthrough(&self) -> (r: bool)
        ensures
            r == (self.kitty_graphics && self.in_multiplexer),
    {
        self.kitty_graphics && self.in_multiplexer
    }
}

/// Complete terminal context combining geometry and capabilities.
#[derive(Debug, Clone, Copy, PartialEq, Eq, Structural)]
pub struct TerminalContext {
    pub geometry: TerminalGeometry,
    pub capabilities: TerminalCapabilities,
}

impl TerminalContext {
    /// A context from detected geometry and capabilities.
    pub fn detect(geometry: TerminalGeometry, capabilities: TerminalCapabilities) -> (r: Self)
        ensures
            r.geometry == geometry,
            r.capabilities == capabilities,
    {
        TerminalContext { geometry, capabilities }
    }

    /// Replace the geometry (e.g., after terminal resize).
    pub fn refresh_geometry(&mut self, geometry: TerminalGeometry)
        ensures
            final(self).geometry == geometry,
            final(self).capabilities == old(self).capabilities,
    {
        self.geometry = geometry;
    }

    /// Pixel dimensions, when both are known.
    pub fn pixel_dimensions(&self) -> (r: Option<(u32, u32)>)
        ensures
            r == match (self.geometry.pixel_width, self.geometry.pixel_height) {
                (Some(w), Some(h)) => Some((w, h)),
                _ => None,
            },
    {
        match (self.geometry.pixel_width, self.geometry.pixel_height) {
            (Some(w), Some(h)) => Some((w, h)),
            _ => None,
        }
    }

    /// Columns and rows.
    pub fn char_dimensions(&self) -> (r: (u16, u16))
        ensures
            r == (self.geometry.cols, self.geometry.rows),
    {
        (self.geometry.cols, self.geometry.rows)
    }
}

} // verus!
