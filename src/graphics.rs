//! Graphics backends and the image render dispatcher.
//!
//! A backend is chosen once from the terminal environment; the dispatcher
//! validates pixel buffers and routes them to the encoder of that backend.
//! Kitty transmissions reuse a single image slot.

use crate::b64::{base64_decode, base64_of, base64_round_trip};
use crate::blocks::{blocks_output, push_blocks};
use crate::escape::{cursor_to, push_bytes, push_cursor_to, push_tmux_wrapped, tmux_wrap, ESC};
use crate::kitty::{
    chunk_count, chunks_joined, chunks_rejoin, direct_stream, placeholder_stream, push_kitty_direct, push_kitty_placeholder, IMAGE_ID,
    MAX_PLACEHOLDER_CELLS,
};
use crate::image_helpers::{png_of_rgb, png_of_rgba, rgb_to_png, rgba_to_png};
use crate::sixel::{push_sixel_image, sixel_image};
use crate::strings::{has_substring, str_contains};
use vstd::prelude::*;

verus! {

/// Graphics rendering backend types.
#[derive(Debug, Clone, Copy, PartialEq, Eq, Structural)]
pub enum GraphicsBackend {
    /// Linux framebuffer direct rendering
    Framebuffer,
    /// Kitty graphics protocol
    Kitty,
    /// Sixel graphics
    Sixel,
    /// Unicode block characters (universal fallback)
    Blocks,
}

/// What backend detection reads from the process environment and filesystem.
#[derive(Debug)]
pub struct DetectEnv {
    /// `/dev/fb0` exists.
    pub fb0_exists: bool,
    /// `DISPLAY` is set.
    pub display_set: bool,
    /// `WAYLAND_DISPLAY` is set.
    pub wayland_display_set: bool,
    /// `KITTY_WINDOW_ID` is set.
    pub kitty_window_id_set: bool,
    /// Value of `TERM`, empty when unset.
    pub term: String,
    /// Value of `TERM_PROGRAM`, empty when unset.
    pub term_program: String,
}

/// The backend that detection picks, first match wins: the framebuffer when
/// `/dev/fb0` exists outside a windowed session, Kitty when its window id is
/// set or `TERM` names it, Sixel for mlterm, xterm or iTerm, else blocks.
pub open spec fn detected_backend(
    fb0_exists: bool,
    display_set: bool,
    wayland_display_set: bool,
    kitty_window_id_set: bool,
    term: Seq<char>,
    term_program: Seq<char>,
) -> GraphicsBackend {
    if fb0_exists && !display_set && !wayland_display_set {
        GraphicsBackend::Framebuffer
    } else if kitty_window_id_set || has_substring(term, "kitty"@) {
        GraphicsBackend::Kitty
    } else if has_substring(term, "mlterm"@) || has_substring(term, "xterm"@) || has_substring(
        term_program,
        "iTerm"@,
    ) {
        GraphicsBackend::Sixel
    } else {
        GraphicsBackend::Blocks
    }
}

impl GraphicsBackend {
    /// Detect the best available graphics backend.
    pub fn detect(env: &DetectEnv) -> (r: GraphicsBackend)
        ensures
            r == detected_backend(
                env.fb0_exists,
                env.display_set,
                env.wayland_display_set,
                env.kitty_window_id_set,
                env.term@,
                env.term_program@,
            ),
    {
        if env.fb0_exists && !env.display_set && !env.wayland_display_set {
            return GraphicsBackend::Framebuffer;
        }
        if env.kitty_window_id_set || str_contains(env.term.as_str(), "kitty") {
            return GraphicsBackend::Kitty;
        }
        if str_contains(env.term.as_str(), "mlterm") || str_contains(env.term.as_str(), "xterm")
            || str_contains(env.term_program.as_str(), "iTerm") {
            return GraphicsBackend::Sixel;
        }
        GraphicsBackend::Blocks
    }

    /// Human-readable name.
    pub fn name(&self) -> (r: &'static str)
        ensures
            r@ == match *self {
                GraphicsBackend::Framebuffer => "Linux Framebuffer"@,
                GraphicsBackend::Kitty => "Kitty Graphics"@,
                GraphicsBackend::Sixel => "Sixel"@,
                GraphicsBackend::Blocks => "Unicode Blocks"@,
            },
    {
        match self {
            GraphicsBackend::Framebuffer => "Linux Framebuffer",
            GraphicsBackend::Kitty => "Kitty Graphics",
            GraphicsBackend::Sixel => "Sixel",
            GraphicsBackend::Blocks => "Unicode Blocks",
        }
    }
}

/// Why a render call failed.
#[derive(Debug, Clone, Copy, PartialEq, Eq, Structural)]
pub enum RenderError {
    /// The buffer length is not `width * height * channels`.
    InvalidImageBuffer,
    /// A placeholder grid would need a row or column index above 255.
    PlacementOutOfRange,
    /// The image could not be encoded for transmission.
    EncodingFailed,
}

/// Top-left cell of the tmux pane inside the terminal.
#[derive(Debug, Clone, Copy, PartialEq, Eq, Structural)]
pub struct TmuxPaneOffset {
    pub top: u16,
    pub left: u16,
}

/// Renders pixel buffers through one backend.
#[derive(Debug, Clone, Copy, PartialEq, Eq, Structural)]
pub struct ImageRenderer {
    pub backend: GraphicsBackend,
    pub in_tmux: bool,
    /// The image slot transmitted this session, if any.
    pub animation_image_id: Option<u32>,
    /// Whether a first frame has been sent.
    pub animation_initialized: bool,
    /// Cached tmux pane offset, refreshed on demand.
    pub tmux_pane_offset: Option<TmuxPaneOffset>,
}

/// `ESC _G a=d,d=I,i=1,q=2 ESC \`: delete the image in the reused slot.
pub open spec fn delete_command() -> Seq<u8> {
    seq![ESC, 0x5f, 0x47, 0x61, 0x3d, 0x64, 0x2c, 0x64, 0x3d, 0x49, 0x2c, 0x69, 0x3d, 0x31, 0x2c, 0x71, 0x3d, 0x32, ESC, 0x5c]
}

/// A buffer of `width * height` pixels of `channels` bytes each has this length.
pub open spec fn buffer_fits(len: nat, width: u32, height: u32, channels: nat) -> bool {
    len == width as nat * height as nat * channels
}

/// Cells across a Kitty placement: the requested count, else the pixel
/// width over the estimated cell width of 10 pixels.
pub open spec fn kitty_cols(width_cells: Option<u16>, width: u32) -> u32 {
    match width_cells {
        Some(w) => w as u32,
        None => width / 10,
    }
}

/// Cells down a Kitty placement: the requested count, else the pixel
/// height over the estimated cell height of 20 pixels.
pub open spec fn kitty_rows(height_cells: Option<u16>, height: u32) -> u32 {
    match height_cells {
        Some(h) => h as u32,
        None => height / 20,
    }
}

/// Cells an image edge spans: the requested count, else the pixel length
/// over the cell size.
fn cell_span(cells: Option<u16>, pixels: u32, cell_px: u32) -> (r: u32)
    requires
        cell_px > 0,
    ensures
        r == match cells {
            Some(n) => n as u32,
            None => pixels / cell_px,
        },
{
    match cells {
        Some(n) => n as u32,
        None => pixels / cell_px,
    }
}

/// A payload of `len` bytes has a base64 encoding whose length fits in `usize`.
pub open spec fn base64_fits(len: nat) -> bool {
    len <= (usize::MAX as nat / 4) * 3
}

/// Width, height and RGB8 pixels of a decoded PNG, as the image crate decodes it.
pub uninterp spec fn png_decoded(data: Seq<u8>) -> Option<(u32, u32, Seq<u8>)>;

/// Relies on image's `load_from_memory` followed by `to_rgb8`: the decoded
/// image's dimensions and RGB8 pixels, or `None` when it does not decode.
#[verifier::external_body]
pub(crate) fn decode_png(data: &[u8]) -> (r: Option<(u32, u32, Vec<u8>)>)
    ensures
        match r {
            Some((w, h, px)) => png_decoded(data@) == Some((w, h, px@)),
            None => png_decoded(data@) is None,
        },
{
    let img = image::load_from_memory(data).ok()?.to_rgb8();
    let (w, h) = img.dimensions();
    Some((w, h, img.into_raw()))
}

/// Relies on base64's `STANDARD` engine `encode`: the standard alphabet
/// with `=` padding, six bits per character, most significant first.
#[verifier::external_body]
fn encode_base64(data: &[u8]) -> (r: Vec<u8>)
    requires
        base64_fits(data@.len()),
    ensures
        r@ == base64_of(data@),
{
    base64::Engine::encode(&base64::engine::general_purpose::STANDARD, data).into_bytes()
}

/// Whether `len == width * height * channels`, computed without overflow.
pub fn buffer_len_matches(len: usize, width: u32, height: u32, channels: u8) -> (r: bool)
    ensures
        r == buffer_fits(len as nat, width, height, channels as nat),
{
    assert(width as nat * height as nat <= 0xffff_ffff * 0xffff_ffff) by (nonlinear_arith)
        requires
            width <= 0xffff_ffff,
            height <= 0xffff_ffff,
    ;
    assert(width as nat * height as nat * channels as nat <= 0xffff_ffff * 0xffff_ffff * 255)
        by (nonlinear_arith)
        requires
            width as nat * height as nat <= 0xffff_ffff * 0xffff_ffff,
            channels <= 255,
    ;
    (width as u128) * (height as u128) * (channels as u128) == len as u128
}

/// The RGB bytes of an RGBA buffer: every fourth byte (alpha) dropped.
pub open spec fn rgba_to_rgb(s: Seq<u8>) -> Seq<u8> {
    Seq::new((s.len() / 4) * 3, |j: int| s[(j / 3) * 4 + j % 3])
}

/// Drops the alpha channel of an RGBA buffer.
pub fn flatten_rgba(data: &[u8]) -> (r: Vec<u8>)
    ensures
        r@ == rgba_to_rgb(data@),
{
    let len = data.len();
    let n = len / 4;
    let mut out: Vec<u8> = Vec::new();
    let mut i: usize = 0;
    while i < n
        invariant
            len == data@.len(),
            n == data@.len() / 4,
            4 * n <= data@.len(),
            i <= n,
            out@.len() == 3 * i,
            forall|j: int| 0 <= j < 3 * i ==> #[trigger] out@[j] == data@[(j / 3) * 4 + j % 3],
        decreases n - i,
    {
        assert(4 * i + 3 < data@.len());
        let k: usize = 4 * i;
        out.push(data[k]);
        out.push(data[k + 1]);
        out.push(data[k + 2]);
        i = i + 1;
    }
    assert(out@ =~= rgba_to_rgb(data@));
    out
}

proof fn lemma_rgba_flat_len(len: nat, width: nat, height: nat)
    requires
        len == width * height * 4,
    ensures
        (len / 4) * 3 == width * height * 3,
{
    assert(len / 4 == width * height) by (nonlinear_arith)
        requires
            len == width * height * 4,
    ;
}

impl ImageRenderer {
    /// The renderer after its slot tracking is reset.
    pub open spec fn reset(self) -> ImageRenderer {
        ImageRenderer { animation_image_id: None, animation_initialized: false, ..self }
    }

    /// The renderer after a Kitty image was transmitted into the reused slot.
    pub open spec fn transmitted(self) -> ImageRenderer {
        ImageRenderer {
            animation_image_id: Some(IMAGE_ID),
            animation_initialized: true,
            ..self
        }
    }

    /// What `delete_all_images` writes: the delete command on Kitty, wrapped
    /// for tmux when inside it; nothing on the other backends.
    pub open spec fn delete_output(self) -> Seq<u8> {
        if self.backend == GraphicsBackend::Kitty {
            if self.in_tmux {
                tmux_wrap(delete_command())
            } else {
                delete_command()
            }
        } else {
            Seq::empty()
        }
    }

    /// A fresh renderer: no image transmitted, no pane offset known.
    pub open spec fn new_spec(backend: GraphicsBackend, in_tmux: bool) -> ImageRenderer {
        ImageRenderer {
            backend,
            in_tmux,
            animation_image_id: None,
            animation_initialized: false,
            tmux_pane_offset: None,
        }
    }

    /// Create an image renderer for a backend; no image is transmitted yet.
    pub fn new(backend: GraphicsBackend, in_tmux: bool) -> (r: ImageRenderer)
        ensures
            r == ImageRenderer::new_spec(backend, in_tmux),
    {
        ImageRenderer {
            backend,
            in_tmux,
            animation_image_id: None,
            animation_initialized: false,
            tmux_pane_offset: None,
        }
    }

    /// Reset animation state (call when clearing images or starting fresh).
    pub fn reset_animation(&mut self)
        ensures
            *final(self) == old(self).reset(),
    {
        self.animation_image_id = None;
        self.animation_initialized = false;
    }

    /// Store a freshly queried pane offset; ignored outside tmux.
    pub fn refresh_pane_info(&mut self, offset: Option<TmuxPaneOffset>)
        ensures
            *final(self) == if old(self).in_tmux {
                ImageRenderer { tmux_pane_offset: offset, ..*old(self) }
            } else {
                *old(self)
            },
    {
        if self.in_tmux {
            self.tmux_pane_offset = offset;
        }
    }

    /// Kept for API compatibility: placeholder mode is always used inside tmux.
    pub fn set_unicode_placeholders(&mut self, enabled: bool)
        ensures
            *final(self) == *old(self),
    {
    }

    /// Get the current backend.
    pub fn backend(&self) -> (r: GraphicsBackend)
        ensures
            r == self.backend,
    {
        self.backend
    }

    /// Delete all images and reset animation state.
    pub fn delete_all_images(&mut self, out: &mut Vec<u8>)
        ensures
            *final(self) == old(self).reset(),
            final(out)@ == old(out)@ + old(self).delete_output(),
    {
        self.reset_animation();
        if self.backend != GraphicsBackend::Kitty {
            assert(out@ =~= old(out)@ + old(self).delete_output());
            return;
        }
        let cmd: [u8; 20] = [ESC, 0x5f, 0x47, 0x61, 0x3d, 0x64, 0x2c, 0x64, 0x3d, 0x49, 0x2c, 0x69, 0x3d, 0x31, 0x2c, 0x71, 0x3d, 0x32, ESC, 0x5c];
        assert(cmd@ =~= delete_command());
        if self.in_tmux {
            push_tmux_wrapped(out, &cmd);
        } else {
            push_bytes(out, &cmd);
        }
    }

    /// Whether a Kitty placement of this size can be drawn: placeholder
    /// grids (inside tmux) index rows and columns with one diacritic each.
    pub open spec fn placement_fits(
        self,
        width: u32,
        height: u32,
        width_cells: Option<u16>,
        height_cells: Option<u16>,
    ) -> bool {
        !self.in_tmux || (kitty_cols(width_cells, width) <= MAX_PLACEHOLDER_CELLS && kitty_rows(
            height_cells,
            height,
        ) <= MAX_PLACEHOLDER_CELLS)
    }

    /// The Kitty byte stream for a base64 payload: placeholder mode inside
    /// tmux, direct mode outside.
    pub open spec fn kitty_stream(self, encoded: Seq<u8>, cols: u32, rows: u32, col: u16, row: u16) -> Seq<u8> {
        if self.in_tmux {
            placeholder_stream(encoded, cols as nat, rows as nat, col as nat, row as nat)
        } else {
            direct_stream(encoded, cols as nat, rows as nat, col as nat, row as nat)
        }
    }

    /// Outcome of transmitting an already PNG-encoded image.
    pub open spec fn kitty_png_result(
        self,
        png: Seq<u8>,
        width: u32,
        height: u32,
        width_cells: Option<u16>,
        height_cells: Option<u16>,
    ) -> Result<(), RenderError> {
        if !self.placement_fits(width, height, width_cells, height_cells) {
            Err(RenderError::PlacementOutOfRange)
        } else if !base64_fits(png.len()) {
            Err(RenderError::EncodingFailed)
        } else {
            Ok(())
        }
    }

    /// The sixel output: a cursor move, then the image, passed through tmux when inside it.
    pub open spec fn sixel_output(self, rgb: Seq<u8>, width: u32, height: u32, col: u16, row: u16) -> Seq<u8> {
        let img = sixel_image(rgb, width as nat, height as nat);
        cursor_to(row as nat, col as nat) + if self.in_tmux {
            tmux_wrap(img)
        } else {
            img
        }
    }

    /// Outcome of rendering a buffer of `channels` bytes per pixel whose PNG
    /// encoding is `png`.
    pub open spec fn render_result(
        self,
        data: Seq<u8>,
        width: u32,
        height: u32,
        width_cells: Option<u16>,
        height_cells: Option<u16>,
        channels: nat,
        png: Option<Seq<u8>>,
    ) -> Result<(), RenderError> {
        if !buffer_fits(data.len(), width, height, channels) {
            Err(RenderError::InvalidImageBuffer)
        } else if self.backend == GraphicsBackend::Kitty {
            if !self.placement_fits(width, height, width_cells, height_cells) {
                Err(RenderError::PlacementOutOfRange)
            } else {
                match png {
                    Some(p) => self.kitty_png_result(p, width, height, width_cells, height_cells),
                    None => Err(RenderError::EncodingFailed),
                }
            }
        } else {
            Ok(())
        }
    }

    /// Bytes written by a render call: nothing on failure; the raw buffer for
    /// the framebuffer device; the Kitty stream of the base64 of the PNG; the
    /// sixel or block rendering of the RGB pixels otherwise.
    pub open spec fn render_output(
        self,
        data: Seq<u8>,
        width: u32,
        height: u32,
        col: u16,
        row: u16,
        width_cells: Option<u16>,
        height_cells: Option<u16>,
        channels: nat,
        png: Option<Seq<u8>>,
    ) -> Seq<u8> {
        let rgb = if channels == 4 {
            rgba_to_rgb(data)
        } else {
            data
        };
        if self.render_result(data, width, height, width_cells, height_cells, channels, png) is Err {
            Seq::empty()
        } else {
            match self.backend {
                GraphicsBackend::Framebuffer => data,
                GraphicsBackend::Kitty => match png {
                    Some(p) => self.kitty_stream(
                        base64_of(p),
                        kitty_cols(width_cells, width),
                        kitty_rows(height_cells, height),
                        col,
                        row,
                    ),
                    None => Seq::empty(),
                },
                GraphicsBackend::Sixel => self.sixel_output(rgb, width, height, col, row),
                GraphicsBackend::Blocks => blocks_output(
                    rgb,
                    width,
                    height,
                    col,
                    row,
                    width_cells,
                    height_cells,
                ),
            }
        }
    }

    /// The renderer after a render call: a successful Kitty transmission
    /// occupies the slot; nothing else changes.
    pub open spec fn render_state(
        self,
        data: Seq<u8>,
        width: u32,
        height: u32,
        width_cells: Option<u16>,
        height_cells: Option<u16>,
        channels: nat,
        png: Option<Seq<u8>>,
    ) -> ImageRenderer {
        if self.backend == GraphicsBackend::Kitty && self.render_result(
            data,
            width,
            height,
            width_cells,
            height_cells,
            channels,
            png,
        ) is Ok {
            self.transmitted()
        } else {
            self
        }
    }

    /// Transmit a PNG file of a `width` by `height` image with the Kitty
    /// protocol into the reused slot.
    pub fn render_kitty_encoded(
        &mut self,
        out: &mut Vec<u8>,
        png: &[u8],
        width: u32,
        height: u32,
        col: u16,
        row: u16,
        width_cells: Option<u16>,
        height_cells: Option<u16>,
    ) -> (res: Result<(), RenderError>)
        ensures
            res == old(self).kitty_png_result(png@, width, height, width_cells, height_cells),
            res is Ok ==> final(out)@ == old(out)@ + old(self).kitty_stream(
                base64_of(png@),
                kitty_cols(width_cells, width),
                kitty_rows(height_cells, height),
                col,
                row,
            ) && *final(self) == old(self).transmitted(),
            res is Err ==> final(out)@ == old(out)@ && *final(self) == *old(self),
    {
        let cols = cell_span(width_cells, width, 10);
        let rows = cell_span(height_cells, height, 20);
        if self.in_tmux && (cols > MAX_PLACEHOLDER_CELLS as u32 || rows > MAX_PLACEHOLDER_CELLS as u32) {
            return Err(RenderError::PlacementOutOfRange);
        }
        if png.len() > (usize::MAX / 4) * 3 {
            return Err(RenderError::EncodingFailed);
        }
        let encoded = encode_base64(png);
        if self.in_tmux {
            push_kitty_placeholder(out, encoded.as_slice(), cols, rows, col, row);
        } else {
            push_kitty_direct(out, encoded.as_slice(), cols, rows, col, row);
        }
        self.animation_image_id = Some(IMAGE_ID);
        self.animation_initialized = true;
        Ok(())
    }

    /// Render an RGB buffer with sixel graphics.
    pub fn render_sixel(&self, out: &mut Vec<u8>, data: &[u8], width: u32, height: u32, col: u16, row: u16)
        requires
            buffer_fits(data@.len(), width, height, 3),
        ensures
            final(out)@ == old(out)@ + self.sixel_output(data@, width, height, col, row),
    {
        push_cursor_to(out, row as u64, col as u64);
        let mut img: Vec<u8> = Vec::new();
        push_sixel_image(&mut img, data, width, height);
        if self.in_tmux {
            push_tmux_wrapped(out, img.as_slice());
        } else {
            push_bytes(out, img.as_slice());
        }
    }

    /// Render an RGB image at the specified terminal position. The framebuffer
    /// backend ignores the position and hands the raw buffer to `out`, which is
    /// then the device's byte stream rather than the terminal's.
    pub fn render_image(
        &mut self,
        out: &mut Vec<u8>,
        data: &[u8],
        width: u32,
        height: u32,
        col: u16,
        row: u16,
        width_cells: Option<u16>,
        height_cells: Option<u16>,
    ) -> (res: Result<(), RenderError>)
        ensures
            res == old(self).render_result(data@, width, height, width_cells, height_cells, 3, png_of_rgb(width, height, data@)),
            final(out)@ == old(out)@ + old(self).render_output(data@, width, height, col, row, width_cells, height_cells, 3, png_of_rgb(width, height, data@)),
            *final(self) == old(self).render_state(data@, width, height, width_cells, height_cells, 3, png_of_rgb(width, height, data@)),
    {
        if !buffer_len_matches(data.len(), width, height, 3) {
            return Err(RenderError::InvalidImageBuffer);
        }
        match self.backend {
            GraphicsBackend::Framebuffer => {
                push_bytes(out, data);
                Ok(())
            },
            GraphicsBackend::Kitty => {
                if self.in_tmux && (cell_span(width_cells, width, 10) > MAX_PLACEHOLDER_CELLS as u32
                    || cell_span(height_cells, height, 20) > MAX_PLACEHOLDER_CELLS as u32) {
                    return Err(RenderError::PlacementOutOfRange);
                }
                match rgb_to_png(width, height, data) {
                    Ok(png) => self.render_kitty_encoded(out, png.as_slice(), width, height, col, row, width_cells, height_cells),
                    Err(e) => Err(e),
                }
            },
            GraphicsBackend::Sixel => {
                self.render_sixel(out, data, width, height, col, row);
                Ok(())
            },
            GraphicsBackend::Blocks => {
                push_blocks(out, data, width, height, col, row, width_cells, height_cells);
                Ok(())
            },
        }
    }

    /// Render an RGBA image. The framebuffer gets the raw buffer and Kitty a
    /// PNG with alpha; sixel and blocks get the RGB pixels, alpha dropped.
    pub fn render_image_rgba(
        &mut self,
        out: &mut Vec<u8>,
        data: &[u8],
        width: u32,
        height: u32,
        col: u16,
        row: u16,
        width_cells: Option<u16>,
        height_cells: Option<u16>,
    ) -> (res: Result<(), RenderError>)
        ensures
            res == old(self).render_result(data@, width, height, width_cells, height_cells, 4, png_of_rgba(width, height, data@)),
            final(out)@ == old(out)@ + old(self).render_output(data@, width, height, col, row, width_cells, height_cells, 4, png_of_rgba(width, height, data@)),
            *final(self) == old(self).render_state(data@, width, height, width_cells, height_cells, 4, png_of_rgba(width, height, data@)),
    {
        if !buffer_len_matches(data.len(), width, height, 4) {
            return Err(RenderError::InvalidImageBuffer);
        }
        match self.backend {
            GraphicsBackend::Framebuffer => {
                push_bytes(out, data);
                Ok(())
            },
            GraphicsBackend::Kitty => {
                if self.in_tmux && (cell_span(width_cells, width, 10) > MAX_PLACEHOLDER_CELLS as u32
                    || cell_span(height_cells, height, 20) > MAX_PLACEHOLDER_CELLS as u32) {
                    return Err(RenderError::PlacementOutOfRange);
                }
                match rgba_to_png(width, height, data) {
                    Ok(png) => self.render_kitty_encoded(out, png.as_slice(), width, height, col, row, width_cells, height_cells),
                    Err(e) => Err(e),
                }
            },
            GraphicsBackend::Sixel => {
                let rgb = flatten_rgba(data);
                proof {
                    lemma_rgba_flat_len(data@.len(), width as nat, height as nat);
                }
                self.render_sixel(out, rgb.as_slice(), width, height, col, row);
                Ok(())
            },
            GraphicsBackend::Blocks => {
                let rgb = flatten_rgba(data);
                push_blocks(out, rgb.as_slice(), width, height, col, row, width_cells, height_cells);
                Ok(())
            },
        }
    }
}

/// A Kitty transmission carries the image exactly: the chunk payloads of
/// the base64 of a PNG file, joined in order and decoded, are the file.
pub proof fn kitty_payload_round_trip(png: Seq<u8>)
    ensures
        base64_decode(chunks_joined(base64_of(png), chunk_count(base64_of(png).len()))) == png,
{
    chunks_rejoin(base64_of(png));
    base64_round_trip(png);
}

/// Deleting twice is safe: the second call leaves the state as the first
/// left it and writes the same bytes again.
pub proof fn delete_all_images_twice(r: ImageRenderer)
    ensures
        r.reset().reset() == r.reset(),
        r.reset().delete_output() == r.delete_output(),
{
}

} // verus!
