//! Frame rendering state: pending terminal output, dirty-region tracking and
//! the frame lifecycle around the image renderer.

use crate::escape::{cursor_to, push_bytes, push_cursor_to, ESC};
use crate::graphics::{decode_png, png_decoded, GraphicsBackend, ImageRenderer, RenderError};
use crate::image_helpers::{png_of_rgb, png_of_rgba};
use crate::kitty::utf8;
use crate::kitty::push_utf8;
use crate::terminal::TerminalContext;
use vstd::prelude::*;
use vstd::string::{StrSliceExecFns, StringSliceAdditionalSpecFns};
use vstd::utf8::encode_utf8;

verus! {

/// Bounding box of the cells that need a redraw.
#[derive(Debug, Clone, Copy, PartialEq, Eq, Structural)]
pub struct DirtyRegion {
    /// Minimum column that needs redraw
    pub min_col: u16,
    /// Minimum row that needs redraw
    pub min_row: u16,
    /// Maximum column that needs redraw
    pub max_col: u16,
    /// Maximum row that needs redraw
    pub max_row: u16,
    /// Whether any region is dirty
    pub is_dirty: bool,
}

/// `a + b`, at most `u16::MAX`.
pub open spec fn sat_add16(a: u16, b: u16) -> u16 {
    if a + b > u16::MAX {
        u16::MAX
    } else {
        (a + b) as u16
    }
}

/// The smaller of two values.
pub open spec fn min16(a: u16, b: u16) -> u16 {
    if a <= b {
        a
    } else {
        b
    }
}

/// The larger of two values.
pub open spec fn max16(a: u16, b: u16) -> u16 {
    if a >= b {
        a
    } else {
        b
    }
}

impl DirtyRegion {
    /// The clean region.
    pub open spec fn clean() -> DirtyRegion {
        DirtyRegion { min_col: 0, min_row: 0, max_col: 0, max_row: 0, is_dirty: false }
    }

    /// The region after `(col, row, width, height)` is added: that rectangle
    /// when clean, else the union's bounding box. Ends saturate at `u16::MAX`.
    pub open spec fn marked(self, col: u16, row: u16, width: u16, height: u16) -> DirtyRegion {
        if !self.is_dirty {
            DirtyRegion {
                min_col: col,
                min_row: row,
                max_col: sat_add16(col, width),
                max_row: sat_add16(row, height),
                is_dirty: true,
            }
        } else {
            DirtyRegion {
                min_col: min16(self.min_col, col),
                min_row: min16(self.min_row, row),
                max_col: max16(self.max_col, sat_add16(col, width)),
                max_row: max16(self.max_row, sat_add16(row, height)),
                is_dirty: true,
            }
        }
    }

    /// Create a new empty (clean) region.
    pub fn new() -> (r: Self)
        ensures
            r == DirtyRegion::clean(),
    {
        DirtyRegion { min_col: 0, min_row: 0, max_col: 0, max_row: 0, is_dirty: false }
    }

    /// Mark the entire screen as dirty.
    pub fn mark_all(&mut self, cols: u16, rows: u16)
        ensures
            *final(self) == (DirtyRegion {
                min_col: 0,
                min_row: 0,
                max_col: cols,
                max_row: rows,
                is_dirty: true,
            }),
    {
        self.min_col = 0;
        self.min_row = 0;
        self.max_col = cols;
        self.max_row = rows;
        self.is_dirty = true;
    }

    /// Mark a specific region as dirty.
    pub fn mark_region(&mut self, col: u16, row: u16, width: u16, height: u16)
        ensures
            *final(self) == old(self).marked(col, row, width, height),
    {
        let end_col = col.saturating_add(width);
        let end_row = row.saturating_add(height);
        if !self.is_dirty {
            self.min_col = col;
            self.min_row = row;
            self.max_col = end_col;
            self.max_row = end_row;
            self.is_dirty = true;
        } else {
            self.min_col = if self.min_col <= col { self.min_col } else { col };
            self.min_row = if self.min_row <= row { self.min_row } else { row };
            self.max_col = if self.max_col >= end_col { self.max_col } else { end_col };
            self.max_row = if self.max_row >= end_row { self.max_row } else { end_row };
        }
    }

    /// Clear the dirty region (mark as clean).
    pub fn clear(&mut self)
        ensures
            *final(self) == DirtyRegion::clean(),
    {
        self.min_col = 0;
        self.min_row = 0;
        self.max_col = 0;
        self.max_row = 0;
        self.is_dirty = false;
    }

    /// Whether the rectangle touches the dirty area (edges included).
    pub fn intersects(&self, col: u16, row: u16, width: u16, height: u16) -> (r: bool)
        ensures
            r == (self.is_dirty && !(col + width < self.min_col || col > self.max_col || row + height
                < self.min_row || row > self.max_row)),
    {
        if !self.is_dirty {
            return false;
        }
        !((col as u32 + width as u32) < self.min_col as u32 || col > self.max_col
            || (row as u32 + height as u32) < self.min_row as u32 || row > self.max_row)
    }
}

/// Terminal renderer state: output waiting to be flushed, the terminal
/// context, the image renderer and dirty-region tracking.
pub struct Renderer {
    /// Bytes for the terminal, not yet flushed.
    pub pending: Vec<u8>,
    /// Bytes for the framebuffer device, not yet written.
    pub device: Vec<u8>,
    pub context: TerminalContext,
    pub image_renderer: ImageRenderer,
    pub in_alt_screen: bool,
    pub dirty: DirtyRegion,
    /// Scratch buffer for building escape sequences.
    pub scratch: String,
}

/// `ESC [ ? 1049 h`: enter the alternative screen.
pub open spec fn alt_screen_on() -> Seq<u8> {
    seq![ESC, 0x5b, 0x3f, 0x31, 0x30, 0x34, 0x39, 0x68]
}

/// `ESC [ ? 1049 l`: leave the alternative screen.
pub open spec fn alt_screen_off() -> Seq<u8> {
    seq![ESC, 0x5b, 0x3f, 0x31, 0x30, 0x34, 0x39, 0x6c]
}

/// `ESC [ 2 J`: clear the screen.
pub open spec fn clear_screen() -> Seq<u8> {
    seq![ESC, 0x5b, 0x32, 0x4a]
}

/// `ESC [ ? 25 l`: hide the cursor.
pub open spec fn cursor_hide() -> Seq<u8> {
    seq![ESC, 0x5b, 0x3f, 0x32, 0x35, 0x6c]
}

/// `ESC [ ? 25 h`: show the cursor.
pub open spec fn cursor_show() -> Seq<u8> {
    seq![ESC, 0x5b, 0x3f, 0x32, 0x35, 0x68]
}

/// `ESC [ 0 m`: reset all attributes.
pub open spec fn reset_style() -> Seq<u8> {
    seq![ESC, 0x5b, 0x30, 0x6d]
}

/// Bytes of `text` in a style: the text alone when the style is empty, else
/// the style, the text and an attribute reset.
#[verifier::opaque]
pub open spec fn styled_bytes(style: Seq<char>, text: Seq<char>) -> Seq<u8> {
    if style.len() == 0 {
        encode_utf8(text)
    } else {
        encode_utf8(style) + encode_utf8(text) + reset_style()
    }
}

/// `count` copies of `s`.
pub open spec fn repeated(s: Seq<u8>, count: nat) -> Seq<u8>
    decreases count,
{
    if count == 0 {
        Seq::empty()
    } else {
        repeated(s, (count - 1) as nat) + s
    }
}

/// Estimated cell span of an image edge: the requested count, else the
/// pixel length over `cell_px`, at most `u16::MAX`.
pub open spec fn estimated_cells(requested: Option<u16>, pixels: u32, cell_px: u32) -> u16 {
    match requested {
        Some(n) => n,
        None => if pixels / cell_px <= u16::MAX {
            (pixels / cell_px) as u16
        } else {
            u16::MAX
        },
    }
}

/// `estimated_cells`, computed.
fn estimate_cells(requested: Option<u16>, pixels: u32, cell_px: u32) -> (r: u16)
    requires
        cell_px > 0,
    ensures
        r == estimated_cells(requested, pixels, cell_px),
{
    match requested {
        Some(n) => n,
        None => {
            let c = pixels / cell_px;
            if c <= 65535 {
                c as u16
            } else {
                65535
            }
        },
    }
}

impl Renderer {
    /// A renderer over a terminal context with the given graphics backend.
    pub fn from_parts(context: TerminalContext, backend: GraphicsBackend) -> (r: Self)
        ensures
            r.pending@.len() == 0,
            r.device@.len() == 0,
            r.context == context,
            r.image_renderer == ImageRenderer::new_spec(backend, context.capabilities.in_multiplexer),
            !r.in_alt_screen,
            r.dirty == DirtyRegion::clean(),
    {
        Renderer {
            pending: Vec::new(),
            device: Vec::new(),
            context,
            image_renderer: ImageRenderer::new(backend, context.capabilities.in_multiplexer),
            in_alt_screen: false,
            dirty: DirtyRegion::new(),
            scratch: String::new(),
        }
    }

    /// Get the current graphics backend.
    pub fn graphics_backend(&self) -> (r: GraphicsBackend)
        ensures
            r == self.image_renderer.backend,
    {
        self.image_renderer.backend()
    }

    /// Enter the alternative screen buffer and mark the whole screen dirty.
    pub fn enter_alt_screen(&mut self)
        ensures
            !old(self).in_alt_screen ==> final(self).pending@ == old(self).pending@ + alt_screen_on()
                && final(self).in_alt_screen && final(self).dirty == (DirtyRegion {
                min_col: 0,
                min_row: 0,
                max_col: old(self).context.geometry.cols,
                max_row: old(self).context.geometry.rows,
                is_dirty: true,
            }),
            old(self).in_alt_screen ==> final(self).pending@ == old(self).pending@
                && final(self).dirty == old(self).dirty && final(self).in_alt_screen,
            final(self).device == old(self).device,
            final(self).context == old(self).context,
            final(self).image_renderer == old(self).image_renderer,
    {
        if !self.in_alt_screen {
            push_bytes(&mut self.pending, &[ESC, 0x5b, 0x3f, 0x31, 0x30, 0x34, 0x39, 0x68]);
            self.in_alt_screen = true;
            let cols = self.context.geometry.cols;
            let rows = self.context.geometry.rows;
            self.dirty.mark_all(cols, rows);
        }
    }

    /// Leave the alternative screen buffer and clear the dirty region.
    pub fn exit_alt_screen(&mut self)
        ensures
            old(self).in_alt_screen ==> final(self).pending@ == old(self).pending@ + alt_screen_off()
                && !final(self).in_alt_screen && final(self).dirty == DirtyRegion::clean(),
            !old(self).in_alt_screen ==> final(self).pending@ == old(self).pending@
                && final(self).dirty == old(self).dirty && !final(self).in_alt_screen,
            final(self).device == old(self).device,
            final(self).context == old(self).context,
            final(self).image_renderer == old(self).image_renderer,
    {
        if self.in_alt_screen {
            push_bytes(&mut self.pending, &[ESC, 0x5b, 0x3f, 0x31, 0x30, 0x34, 0x39, 0x6c]);
            self.in_alt_screen = false;
            self.dirty.clear();
        }
    }

    /// Clear the screen and mark all of it dirty.
    pub fn clear(&mut self)
        ensures
            final(self).pending@ == old(self).pending@ + clear_screen(),
            final(self).dirty == (DirtyRegion {
                min_col: 0,
                min_row: 0,
                max_col: old(self).context.geometry.cols,
                max_row: old(self).context.geometry.rows,
                is_dirty: true,
            }),
            final(self).in_alt_screen == old(self).in_alt_screen,
            final(self).image_renderer == old(self).image_renderer,
    {
        push_bytes(&mut self.pending, &[ESC, 0x5b, 0x32, 0x4a]);
        let cols = self.context.geometry.cols;
        let rows = self.context.geometry.rows;
        self.dirty.mark_all(cols, rows);
    }

    /// Move cursor to a 0-indexed position.
    pub fn move_cursor(&mut self, col: u16, row: u16)
        ensures
            final(self).pending@ == old(self).pending@ + cursor_to(row as nat, col as nat),
            final(self).dirty == old(self).dirty,
            final(self).image_renderer == old(self).image_renderer,
    {
        push_cursor_to(&mut self.pending, row as u64, col as u64);
    }

    /// Hide cursor.
    pub fn hide_cursor(&mut self)
        ensures
            final(self).pending@ == old(self).pending@ + cursor_hide(),
            final(self).dirty == old(self).dirty,
            final(self).image_renderer == old(self).image_renderer,
            final(self).device == old(self).device,
    {
        push_bytes(&mut self.pending, &[ESC, 0x5b, 0x3f, 0x32, 0x35, 0x6c]);
    }

    /// Show cursor.
    pub fn show_cursor(&mut self)
        ensures
            final(self).pending@ == old(self).pending@ + cursor_show(),
            final(self).dirty == old(self).dirty,
            final(self).image_renderer == old(self).image_renderer,
            final(self).device == old(self).device,
    {
        push_bytes(&mut self.pending, &[ESC, 0x5b, 0x3f, 0x32, 0x35, 0x68]);
    }

    /// Write text at the current cursor position.
    pub fn write_text(&mut self, text: &str)
        ensures
            final(self).pending@ == old(self).pending@ + text.spec_bytes(),
            final(self).dirty == old(self).dirty,
            final(self).image_renderer == old(self).image_renderer,
            final(self).device == old(self).device,
    {
        push_bytes(&mut self.pending, text.as_bytes());
    }

    /// Write text after a style prefix, then reset attributes.
    pub fn write_styled(&mut self, text: &str, style: &str)
        ensures
            final(self).pending@ == old(self).pending@ + style.spec_bytes() + text.spec_bytes()
                + reset_style(),
            final(self).dirty == old(self).dirty,
            final(self).image_renderer == old(self).image_renderer,
            final(self).device == old(self).device,
    {
        push_bytes(&mut self.pending, style.as_bytes());
        push_bytes(&mut self.pending, text.as_bytes());
        push_bytes(&mut self.pending, &[ESC, 0x5b, 0x30, 0x6d]);
        assert(self.pending@ =~= old(self).pending@ + style.spec_bytes() + text.spec_bytes()
            + reset_style());
    }

    /// Write text in a style: plain when the style is empty, else the
    /// style, the text and an attribute reset.
    pub fn write_in_style(&mut self, text: &str, style: &str)
        ensures
            final(self).pending@ == old(self).pending@ + styled_bytes(style@, text@),
            final(self).dirty == old(self).dirty,
            final(self).image_renderer == old(self).image_renderer,
    {
        reveal(styled_bytes);
        if style.unicode_len() == 0 {
            self.write_text(text);
        } else {
            self.write_styled(text, style);
        }
    }

    /// Write a character `count` times.
    pub fn write_repeated(&mut self, ch: char, count: usize)
        ensures
            final(self).pending@ == old(self).pending@ + repeated(utf8(ch as nat), count as nat),
            final(self).dirty == old(self).dirty,
    {
        let mut i: usize = 0;
        while i < count
            invariant
                i <= count,
                self.pending@ == old(self).pending@ + repeated(utf8(ch as nat), i as nat),
                self.dirty == old(self).dirty,
            decreases count - i,
        {
            push_utf8(&mut self.pending, ch as u32);
            i = i + 1;
            assert(self.pending@ =~= old(self).pending@ + repeated(utf8(ch as nat), i as nat));
        }
    }

    /// Hand over the pending terminal output, leaving none behind.
    pub fn flush(&mut self) -> (r: Vec<u8>)
        ensures
            r@ == old(self).pending@,
            final(self).pending@.len() == 0,
            final(self).device == old(self).device,
            final(self).dirty == old(self).dirty,
            final(self).image_renderer == old(self).image_renderer,
            final(self).in_alt_screen == old(self).in_alt_screen,
    {
        let mut taken: Vec<u8> = Vec::new();
        std::mem::swap(&mut taken, &mut self.pending);
        taken
    }

    /// Hand over the pending framebuffer bytes, leaving none behind.
    pub fn take_device_output(&mut self) -> (r: Vec<u8>)
        ensures
            r@ == old(self).device@,
            final(self).device@.len() == 0,
            final(self).pending == old(self).pending,
    {
        let mut taken: Vec<u8> = Vec::new();
        std::mem::swap(&mut taken, &mut self.device);
        taken
    }

    /// Get current dirty region.
    pub fn dirty_region(&self) -> (r: &DirtyRegion)
        ensures
            *r == self.dirty,
    {
        &self.dirty
    }

    /// Mark a region as needing redraw.
    pub fn mark_dirty(&mut self, col: u16, row: u16, width: u16, height: u16)
        ensures
            final(self).dirty == old(self).dirty.marked(col, row, width, height),
            final(self).pending == old(self).pending,
            final(self).image_renderer == old(self).image_renderer,
    {
        self.dirty.mark_region(col, row, width, height);
    }

    /// Clear dirty region tracking (call after full render).
    pub fn clear_dirty(&mut self)
        ensures
            final(self).dirty == DirtyRegion::clean(),
            final(self).pending == old(self).pending,
            final(self).image_renderer == old(self).image_renderer,
    {
        self.dirty.clear();
    }

    /// Get current terminal context.
    pub fn context(&self) -> (r: &TerminalContext)
        ensures
            *r == self.context,
    {
        &self.context
    }

    /// Store new geometry (after a resize) and a freshly queried pane offset.
    pub fn refresh_geometry(
        &mut self,
        geometry: crate::terminal::TerminalGeometry,
        offset: Option<crate::graphics::TmuxPaneOffset>,
    )
        ensures
            final(self).context.geometry == geometry,
            final(self).context.capabilities == old(self).context.capabilities,
            final(self).pending == old(self).pending,
            final(self).image_renderer.tmux_pane_offset == if old(self).image_renderer.in_tmux {
                offset
            } else {
                old(self).image_renderer.tmux_pane_offset
            },
    {
        self.context.refresh_geometry(geometry);
        self.image_renderer.refresh_pane_info(offset);
    }

    /// Store a freshly queried pane offset (call on pane switch).
    pub fn refresh_pane_info(&mut self, offset: Option<crate::graphics::TmuxPaneOffset>)
        ensures
            final(self).image_renderer.tmux_pane_offset == if old(self).image_renderer.in_tmux {
                offset
            } else {
                old(self).image_renderer.tmux_pane_offset
            },
            final(self).image_renderer.backend == old(self).image_renderer.backend,
            final(self).pending == old(self).pending,
    {
        self.image_renderer.refresh_pane_info(offset);
    }

    /// Render an RGB image; the image's cells are marked dirty first. Terminal
    /// backends write to the pending output, the framebuffer to the device bytes.
    pub fn render_image(
        &mut self,
        data: &[u8],
        width: u32,
        height: u32,
        col: u16,
        row: u16,
        width_cells: Option<u16>,
        height_cells: Option<u16>,
    ) -> (res: Result<(), RenderError>)
        ensures
            final(self).dirty == old(self).dirty.marked(
                col,
                row,
                estimated_cells(width_cells, width, 10),
                estimated_cells(height_cells, height, 20),
            ),
            res == old(self).image_renderer.render_result(data@, width, height, width_cells, height_cells, 3, png_of_rgb(width, height, data@)),
            final(self).image_renderer == old(self).image_renderer.render_state(data@, width, height, width_cells, height_cells, 3, png_of_rgb(width, height, data@)),
            old(self).image_renderer.backend == GraphicsBackend::Framebuffer ==> final(self).device@ == old(self).device@ + old(self).image_renderer.render_output(data@, width, height, col, row, width_cells, height_cells, 3, png_of_rgb(width, height, data@)) && final(self).pending == old(self).pending,
            old(self).image_renderer.backend != GraphicsBackend::Framebuffer ==> final(self).pending@ == old(self).pending@ + old(self).image_renderer.render_output(data@, width, height, col, row, width_cells, height_cells, 3, png_of_rgb(width, height, data@)) && final(self).device == old(self).device,
    {
        let w: u16 = estimate_cells(width_cells, width, 10);
        let h: u16 = estimate_cells(height_cells, height, 20);
        self.dirty.mark_region(col, row, w, h);
        if self.image_renderer.backend() == GraphicsBackend::Framebuffer {
            self.image_renderer.render_image(&mut self.device, data, width, height, col, row, width_cells, height_cells)
        } else {
            self.image_renderer.render_image(&mut self.pending, data, width, height, col, row, width_cells, height_cells)
        }
    }

    /// Render an RGBA image; see `render_image`.
    pub fn render_image_rgba(
        &mut self,
        data: &[u8],
        width: u32,
        height: u32,
        col: u16,
        row: u16,
        width_cells: Option<u16>,
        height_cells: Option<u16>,
    ) -> (res: Result<(), RenderError>)
        ensures
            final(self).dirty == old(self).dirty.marked(
                col,
                row,
                estimated_cells(width_cells, width, 10),
                estimated_cells(height_cells, height, 20),
            ),
            res == old(self).image_renderer.render_result(data@, width, height, width_cells, height_cells, 4, png_of_rgba(width, height, data@)),
            final(self).image_renderer == old(self).image_renderer.render_state(data@, width, height, width_cells, height_cells, 4, png_of_rgba(width, height, data@)),
            old(self).image_renderer.backend == GraphicsBackend::Framebuffer ==> final(self).device@ == old(self).device@ + old(self).image_renderer.render_output(data@, width, height, col, row, width_cells, height_cells, 4, png_of_rgba(width, height, data@)) && final(self).pending == old(self).pending,
            old(self).image_renderer.backend != GraphicsBackend::Framebuffer ==> final(self).pending@ == old(self).pending@ + old(self).image_renderer.render_output(data@, width, height, col, row, width_cells, height_cells, 4, png_of_rgba(width, height, data@)) && final(self).device == old(self).device,
    {
        let w: u16 = estimate_cells(width_cells, width, 10);
        let h: u16 = estimate_cells(height_cells, height, 20);
        self.dirty.mark_region(col, row, w, h);
        if self.image_renderer.backend() == GraphicsBackend::Framebuffer {
            self.image_renderer.render_image_rgba(&mut self.device, data, width, height, col, row, width_cells, height_cells)
        } else {
            self.image_renderer.render_image_rgba(&mut self.pending, data, width, height, col, row, width_cells, height_cells)
        }
    }

    /// Render a PNG file: decoded to RGB pixels, then as `render_image`;
    /// a file that does not decode is an encoding failure.
    pub fn render_kitty_image(
        &mut self,
        png: &[u8],
        col: u16,
        row: u16,
        width_cells: Option<u16>,
        height_cells: Option<u16>,
    ) -> (res: Result<(), RenderError>)
        ensures
            match png_decoded(png@) {
                None => res == Err::<(), RenderError>(RenderError::EncodingFailed) && final(self).pending == old(self).pending
                    && final(self).device == old(self).device && final(self).image_renderer == old(self).image_renderer,
                Some((w, h, px)) => res == old(self).image_renderer.render_result(px, w, h, width_cells, height_cells, 3, png_of_rgb(w, h, px))
                    && final(self).image_renderer == old(self).image_renderer.render_state(px, w, h, width_cells, height_cells, 3, png_of_rgb(w, h, px))
                    && final(self).dirty == old(self).dirty.marked(col, row, estimated_cells(width_cells, w, 10), estimated_cells(height_cells, h, 20)),
            },
    {
        match decode_png(png) {
            Some((w, h, px)) => self.render_image(px.as_slice(), w, h, col, row, width_cells, height_cells),
            None => Err(RenderError::EncodingFailed),
        }
    }

    /// Delete the tracked image and reset slot tracking.
    pub fn clear_images(&mut self)
        ensures
            final(self).image_renderer == old(self).image_renderer.reset(),
            final(self).pending@ == old(self).pending@ + old(self).image_renderer.delete_output(),
            final(self).dirty == old(self).dirty,
            final(self).in_alt_screen == old(self).in_alt_screen,
            final(self).device == old(self).device,
    {
        self.image_renderer.delete_all_images(&mut self.pending);
    }

    /// Kept for API compatibility: placeholder mode is always used inside tmux.
    pub fn set_unicode_placeholders(&mut self, enabled: bool)
        ensures
            final(self).image_renderer == old(self).image_renderer,
            final(self).pending == old(self).pending,
    {
        self.image_renderer.set_unicode_placeholders(enabled);
    }

    /// Whether running inside a terminal multiplexer.
    pub fn in_multiplexer(&self) -> (r: bool)
        ensures
            r == self.context.capabilities.in_multiplexer,
    {
        self.context.capabilities.in_multiplexer
    }

    /// Begin a frame: hide the cursor and delete the tracked image.
    pub fn begin_frame(&mut self)
        ensures
            final(self).pending@ == old(self).pending@ + cursor_hide() + old(self).image_renderer.delete_output(),
            final(self).image_renderer == old(self).image_renderer.reset(),
            final(self).dirty == old(self).dirty,
    {
        self.begin_frame_with_options(true);
    }

    /// Begin a frame: hide the cursor, and delete the tracked image when
    /// `clear_graphics` holds (for content that changes every frame).
    pub fn begin_frame_with_options(&mut self, clear_graphics: bool)
        ensures
            clear_graphics ==> final(self).pending@ == old(self).pending@ + cursor_hide()
                + old(self).image_renderer.delete_output() && final(self).image_renderer
                == old(self).image_renderer.reset(),
            !clear_graphics ==> final(self).pending@ == old(self).pending@ + cursor_hide()
                && final(self).image_renderer == old(self).image_renderer,
            final(self).dirty == old(self).dirty,
    {
        self.hide_cursor();
        if clear_graphics {
            self.clear_images();
        }
    }

    /// End a frame: show the cursor, hand over all pending output, clear the dirty region.
    pub fn end_frame(&mut self) -> (r: Vec<u8>)
        ensures
            r@ == old(self).pending@ + cursor_show(),
            final(self).pending@.len() == 0,
            final(self).dirty == DirtyRegion::clean(),
            final(self).image_renderer == old(self).image_renderer,
    {
        self.show_cursor();
        let out = self.flush();
        self.clear_dirty();
        out
    }

    /// Whether the renderer is in alternative screen mode.
    pub fn in_alt_screen(&self) -> (r: bool)
        ensures
            r == self.in_alt_screen,
    {
        self.in_alt_screen
    }

    /// The scratch buffer, emptied, for building strings without allocating.
    pub fn scratch_buffer(&mut self) -> (r: &mut String)
        ensures
            r@.len() == 0,
    {
        self.scratch = String::new();
        &mut self.scratch
    }
}

} // verus!
