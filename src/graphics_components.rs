//! Image and animation components drawn through the frame renderer.

use crate::graphics::{decode_png, flatten_rgba, png_decoded, rgba_to_rgb, RenderError};
use crate::layout::Rect;
use crate::render::Renderer;
use vstd::prelude::*;

verus! {

/// Pixel data in one of three encodings.
#[derive(Debug, Clone)]
pub enum ImageData {
    Rgb(Vec<u8>),
    Rgba(Vec<u8>),
    Png(Vec<u8>),
}

/// The RGB bytes of RGBA data taken four at a time; a trailing group of
/// three bytes counts as one more pixel.
pub open spec fn rgba_chunks_rgb(s: Seq<u8>) -> Seq<u8> {
    rgba_to_rgb(s) + if s.len() % 4 == 3 {
        s.subrange(s.len() - 3, s.len() as int)
    } else {
        Seq::empty()
    }
}

impl ImageData {
    /// The RGB pixels: copied, alpha dropped, or decoded.
    pub fn to_rgb(&self, width: u32, height: u32) -> (r: Result<Vec<u8>, RenderError>)
        ensures
            match *self {
                ImageData::Rgb(d) => r is Ok && r->Ok_0@ == d@,
                ImageData::Rgba(d) => r is Ok && r->Ok_0@ == rgba_chunks_rgb(d@),
                ImageData::Png(d) => match png_decoded(d@) {
                    Some((w, h, px)) => r is Ok && r->Ok_0@ == px,
                    None => r == Err::<Vec<u8>, RenderError>(RenderError::EncodingFailed),
                },
            },
    {
        match self {
            ImageData::Rgb(data) => {
                let mut out: Vec<u8> = Vec::new();
                crate::escape::push_bytes(&mut out, data.as_slice());
                Ok(out)
            },
            ImageData::Rgba(data) => {
                let mut rgb = flatten_rgba(data.as_slice());
                let n = data.len();
                if n % 4 == 3 {
                    rgb.push(data[n - 3]);
                    rgb.push(data[n - 2]);
                    rgb.push(data[n - 1]);
                }
                assert(rgb@ =~= rgba_chunks_rgb(data@));
                Ok(rgb)
            },
            ImageData::Png(data) => match decode_png(data.as_slice()) {
                Some((_w, _h, px)) => Ok(px),
                None => Err(RenderError::EncodingFailed),
            },
        }
    }
}

/// Smallest cell size to show `width` by `height` pixels at about 8 by 16 pixels a cell.
pub open spec fn min_cells(width: u32, height: u32) -> (u16, u16) {
    (
        (if width / 8 >= 1 { width / 8 } else { 1 }) as u16,
        (if height / 16 >= 1 { height / 16 } else { 1 }) as u16,
    )
}

fn min_cells_of(width: u32, height: u32) -> (r: (u16, u16))
    ensures
        r == min_cells(width, height),
{
    let c: u32 = if width / 8 >= 1 { width / 8 } else { 1 };
    let r: u32 = if height / 16 >= 1 { height / 16 } else { 1 };
    (c as u16, r as u16)
}

/// A static image.
pub struct Image {
    pub data: ImageData,
    pub width: u32,
    pub height: u32,
    pub dirty: bool,
}

impl Image {
    /// An image from RGB8 pixels.
    pub fn from_rgb(data: Vec<u8>, width: u32, height: u32) -> (r: Self)
        ensures
            r.data == ImageData::Rgb(data),
            r.width == width,
            r.height == height,
            r.dirty,
    {
        Image { data: ImageData::Rgb(data), width, height, dirty: true }
    }

    /// An image from RGBA8 pixels.
    pub fn from_rgba(data: Vec<u8>, width: u32, height: u32) -> (r: Self)
        ensures
            r.data == ImageData::Rgba(data),
            r.width == width,
            r.height == height,
            r.dirty,
    {
        Image { data: ImageData::Rgba(data), width, height, dirty: true }
    }

    /// An image from a PNG file, sized as it decodes.
    pub fn from_png(data: Vec<u8>) -> (r: Result<Self, RenderError>)
        ensures
            match png_decoded(data@) {
                Some((w, h, px)) => r is Ok && r->Ok_0.width == w && r->Ok_0.height == h
                    && r->Ok_0.data == ImageData::Png(data) && r->Ok_0.dirty,
                None => r is Err,
            },
    {
        match decode_png(data.as_slice()) {
            Some((w, h, _px)) => Ok(Image { data: ImageData::Png(data), width: w, height: h, dirty: true }),
            None => Err(RenderError::EncodingFailed),
        }
    }

    /// Replace the pixels with RGB8 data.
    pub fn set_rgb(&mut self, data: Vec<u8>, width: u32, height: u32)
        ensures
            final(self).data == ImageData::Rgb(data),
            final(self).width == width,
            final(self).height == height,
            final(self).dirty,
    {
        self.data = ImageData::Rgb(data);
        self.width = width;
        self.height = height;
        self.dirty = true;
    }

    /// Width and height in pixels.
    pub fn dimensions(&self) -> (r: (u32, u32))
        ensures
            r == (self.width, self.height),
    {
        (self.width, self.height)
    }

    /// Smallest useful size in cells.
    pub fn min_size(&self) -> (r: (u16, u16))
        ensures
            r == min_cells(self.width, self.height),
    {
        min_cells_of(self.width, self.height)
    }

    /// Ask for a redraw.
    pub fn mark_dirty(&mut self)
        ensures
            final(self).dirty,
            final(self).width == old(self).width,
            final(self).height == old(self).height,
    {
        self.dirty = true;
    }

    /// Whether a redraw is needed.
    pub fn is_dirty(&self) -> (r: bool)
        ensures
            r == self.dirty,
    {
        self.dirty
    }

    /// Draw the image into `bounds`; clean afterwards when it succeeded.
    pub fn render(&mut self, renderer: &mut Renderer, bounds: Rect) -> (r: Result<(), RenderError>)
        ensures
            r is Ok ==> !final(self).dirty,
            r is Err ==> final(self).dirty == old(self).dirty,
    {
        let rgb = match self.data.to_rgb(self.width, self.height) {
            Ok(v) => v,
            Err(e) => return Err(e),
        };
        match renderer.render_image(rgb.as_slice(), self.width, self.height, bounds.x, bounds.y, Some(bounds.width), Some(bounds.height)) {
            Ok(()) => {
                self.dirty = false;
                Ok(())
            },
            Err(e) => Err(e),
        }
    }
}

/// Zero bytes for a `width` by `height` RGB frame.
fn blank_frame(width: u32, height: u32) -> (r: Vec<u8>)
    requires
        width as int * height as int * 3 <= u32::MAX,
    ensures
        r@ == Seq::new((width as int * height as int * 3) as nat, |i: int| 0u8),
{
    let n: u32 = width * height * 3;
    let mut v: Vec<u8> = Vec::new();
    let mut i: u32 = 0;
    while i < n
        invariant
            i <= n,
            n == width as int * height as int * 3,
            v@ == Seq::new(i as nat, |k: int| 0u8),
        decreases n - i,
    {
        v.push(0);
        i = i + 1;
        assert(v@ =~= Seq::new(i as nat, |k: int| 0u8));
    }
    v
}

/// A frame-by-frame animation.
pub struct Animation {
    pub current_frame: Vec<u8>,
    pub width: u32,
    pub height: u32,
    pub playing: bool,
    pub dirty: bool,
}

impl Animation {
    /// A playing animation with a black frame.
    pub fn new(width: u32, height: u32) -> (r: Self)
        requires
            width as int * height as int * 3 <= u32::MAX,
        ensures
            r.current_frame@ == Seq::new((width as int * height as int * 3) as nat, |i: int| 0u8),
            r.width == width,
            r.height == height,
            r.playing,
            r.dirty,
    {
        Animation { current_frame: blank_frame(width, height), width, height, playing: true, dirty: true }
    }

    /// Replace the frame.
    pub fn set_frame(&mut self, data: Vec<u8>)
        ensures
            final(self).current_frame == data,
            final(self).dirty,
            final(self).playing == old(self).playing,
    {
        self.current_frame = data;
        self.dirty = true;
    }

    /// Copy a frame in, reusing the buffer.
    pub fn set_frame_ref(&mut self, data: &[u8])
        ensures
            final(self).current_frame@ == data@,
            final(self).dirty,
            final(self).playing == old(self).playing,
    {
        self.current_frame.clear();
        crate::escape::push_bytes(&mut self.current_frame, data);
        self.dirty = true;
    }

    /// Mutable access to the frame buffer; the animation is marked for redraw.
    pub fn frame_buffer_mut(&mut self) -> (r: &mut Vec<u8>)
        ensures
            *r == old(self).current_frame,
            final(self).current_frame == *final(r),
            final(self).dirty,
    {
        self.dirty = true;
        &mut self.current_frame
    }

    /// Change the size; the frame becomes black.
    pub fn resize(&mut self, width: u32, height: u32)
        requires
            width as int * height as int * 3 <= u32::MAX,
        ensures
            final(self).current_frame@ == Seq::new((width as int * height as int * 3) as nat, |i: int| 0u8),
            final(self).width == width,
            final(self).height == height,
            final(self).dirty,
            final(self).playing == old(self).playing,
    {
        self.width = width;
        self.height = height;
        self.current_frame = blank_frame(width, height);
        self.dirty = true;
    }

    /// Width and height in pixels.
    pub fn dimensions(&self) -> (r: (u32, u32))
        ensures
            r == (self.width, self.height),
    {
        (self.width, self.height)
    }

    /// Whether it is playing.
    pub fn is_playing(&self) -> (r: bool)
        ensures
            r == self.playing,
    {
        self.playing
    }

    /// Start playing.
    pub fn play(&mut self)
        ensures
            final(self).playing,
            final(self).width == old(self).width,
            final(self).height == old(self).height,
            final(self).current_frame == old(self).current_frame,
            final(self).dirty == old(self).dirty,
    {
        self.playing = true;
    }

    /// Stop playing.
    pub fn pause(&mut self)
        ensures
            !final(self).playing,
            final(self).width == old(self).width,
            final(self).height == old(self).height,
            final(self).current_frame == old(self).current_frame,
            final(self).dirty == old(self).dirty,
    {
        self.playing = false;
    }

    /// Switch between playing and paused.
    pub fn toggle(&mut self)
        ensures
            final(self).playing == !old(self).playing,
            final(self).width == old(self).width,
            final(self).height == old(self).height,
            final(self).current_frame == old(self).current_frame,
            final(self).dirty == old(self).dirty,
    {
        self.playing = !self.playing;
    }

    /// Smallest useful size in cells.
    pub fn min_size(&self) -> (r: (u16, u16))
        ensures
            r == min_cells(self.width, self.height),
    {
        min_cells_of(self.width, self.height)
    }

    /// Ask for a redraw.
    pub fn mark_dirty(&mut self)
        ensures
            final(self).dirty,
            final(self).playing == old(self).playing,
    {
        self.dirty = true;
    }

    /// Whether a redraw is needed: always while playing.
    pub fn is_dirty(&self) -> (r: bool)
        ensures
            r == (self.playing || self.dirty),
    {
        self.playing || self.dirty
    }

    /// Draw the current frame into `bounds`; nothing without frame data.
    /// Afterwards it stays dirty only while playing.
    pub fn render(&mut self, renderer: &mut Renderer, bounds: Rect) -> (r: Result<(), RenderError>)
        ensures
            old(self).current_frame@.len() == 0 ==> r is Ok && final(self).dirty == old(self).dirty,
            old(self).current_frame@.len() > 0 && r is Ok ==> final(self).dirty == old(self).playing,
    {
        if self.current_frame.len() == 0 {
            return Ok(());
        }
        match renderer.render_image(self.current_frame.as_slice(), self.width, self.height, bounds.x, bounds.y, Some(bounds.width), Some(bounds.height)) {
            Ok(()) => {
                self.dirty = self.playing;
                Ok(())
            },
            Err(e) => Err(e),
        }
    }
}

} // verus!
