//! Flex-style layout of rectangles in cell coordinates.

use vstd::prelude::*;

verus! {

/// `a + b`, at most `u16::MAX`.
pub open spec fn sadd(a: int, b: int) -> int {
    if a + b > u16::MAX {
        u16::MAX as int
    } else {
        a + b
    }
}

/// `a - b`, at least 0.
pub open spec fn ssub(a: int, b: int) -> int {
    if a >= b {
        a - b
    } else {
        0
    }
}

/// `a * b`, at most `u16::MAX`.
pub open spec fn smul(a: int, b: int) -> int {
    if a * b > u16::MAX {
        u16::MAX as int
    } else {
        a * b
    }
}

/// `a * b`, saturating at `u16::MAX`.
pub fn sat_mul16(a: u16, b: u16) -> (r: u16)
    ensures
        r == smul(a as int, b as int),
{
    assert(a as int * b as int <= 65535 * 65535) by (nonlinear_arith)
        requires
            a <= 65535,
            b <= 65535,
    ;
    let p: u32 = a as u32 * b as u32;
    if p > 65535 {
        65535
    } else {
        p as u16
    }
}

/// A rectangle of cells.
#[derive(Debug, Clone, Copy, PartialEq, Eq, Structural)]
pub struct Rect {
    pub x: u16,
    pub y: u16,
    pub width: u16,
    pub height: u16,
}

impl Rect {
    /// The rectangle shrunk by `padding` on every side, saturating.
    pub open spec fn inner_spec(self, padding: u16) -> Rect {
        Rect {
            x: sadd(self.x as int, padding as int) as u16,
            y: sadd(self.y as int, padding as int) as u16,
            width: ssub(self.width as int, smul(padding as int, 2)) as u16,
            height: ssub(self.height as int, smul(padding as int, 2)) as u16,
        }
    }

    /// Create a rectangle.
    pub fn new(x: u16, y: u16, width: u16, height: u16) -> (r: Self)
        ensures
            r == (Rect { x, y, width, height }),
    {
        Rect { x, y, width, height }
    }

    /// The whole screen.
    pub fn fullscreen(cols: u16, rows: u16) -> (r: Self)
        ensures
            r == (Rect { x: 0, y: 0, width: cols, height: rows }),
    {
        Rect::new(0, 0, cols, rows)
    }

    /// One past the last column, saturating.
    pub fn right(&self) -> (r: u16)
        ensures
            r == sadd(self.x as int, self.width as int),
    {
        self.x.saturating_add(self.width)
    }

    /// One past the last row, saturating.
    pub fn bottom(&self) -> (r: u16)
        ensures
            r == sadd(self.y as int, self.height as int),
    {
        self.y.saturating_add(self.height)
    }

    /// Whether the cell `(x, y)` lies inside.
    pub fn contains(&self, x: u16, y: u16) -> (r: bool)
        ensures
            r == (self.x <= x < sadd(self.x as int, self.width as int) && self.y <= y < sadd(
                self.y as int,
                self.height as int,
            )),
    {
        x >= self.x && x < self.right() && y >= self.y && y < self.bottom()
    }

    /// The rectangle shrunk by `padding` on every side.
    pub fn inner(&self, padding: u16) -> (r: Self)
        ensures
            r == self.inner_spec(padding),
    {
        let padding2 = sat_mul16(padding, 2);
        Rect {
            x: self.x.saturating_add(padding),
            y: self.y.saturating_add(padding),
            width: self.width.saturating_sub(padding2),
            height: self.height.saturating_sub(padding2),
        }
    }

    /// Split into a top part at most `top_height` tall and the rest below it.
    pub fn split_horizontal(&self, top_height: u16) -> (r: (Rect, Rect))
        ensures
            r.0 == (Rect {
                height: if top_height <= self.height { top_height } else { self.height },
                ..*self
            }),
            r.1 == (Rect {
                y: sadd(self.y as int, top_height as int) as u16,
                height: ssub(self.height as int, top_height as int) as u16,
                ..*self
            }),
    {
        let top = Rect {
            x: self.x,
            y: self.y,
            width: self.width,
            height: if top_height <= self.height { top_height } else { self.height },
        };
        let bottom = Rect {
            x: self.x,
            y: self.y.saturating_add(top_height),
            width: self.width,
            height: self.height.saturating_sub(top_height),
        };
        (top, bottom)
    }

    /// Split into a left part at most `left_width` wide and the rest to its right.
    pub fn split_vertical(&self, left_width: u16) -> (r: (Rect, Rect))
        ensures
            r.0 == (Rect {
                width: if left_width <= self.width { left_width } else { self.width },
                ..*self
            }),
            r.1 == (Rect {
                x: sadd(self.x as int, left_width as int) as u16,
                width: ssub(self.width as int, left_width as int) as u16,
                ..*self
            }),
    {
        let left = Rect {
            x: self.x,
            y: self.y,
            width: if left_width <= self.width { left_width } else { self.width },
            height: self.height,
        };
        let right = Rect {
            x: self.x.saturating_add(left_width),
            y: self.y,
            width: self.width.saturating_sub(left_width),
            height: self.height,
        };
        (left, right)
    }
}

/// Main axis of a layout.
#[derive(Debug, Clone, Copy, PartialEq, Eq, Structural)]
pub enum FlexDirection {
    Row,
    Column,
}

/// Cross-axis alignment.
#[derive(Debug, Clone, Copy, PartialEq, Eq, Structural)]
pub enum Alignment {
    Start,
    Center,
    End,
    Stretch,
}

/// Main-axis size of a child.
#[derive(Debug, Clone, Copy, PartialEq, Eq, Structural)]
pub enum Size {
    /// Exactly this many cells.
    Fixed(u16),
    /// This many shares of the space left over.
    Flex(u16),
    /// One share of the space left over.
    Auto,
}

/// Fixed cells requested by the first `k` sizes, saturating.
pub open spec fn fixed_total(sizes: Seq<Size>, k: nat) -> int
    decreases k,
{
    if k == 0 {
        0
    } else {
        let prev = fixed_total(sizes, (k - 1) as nat);
        match sizes[k - 1] {
            Size::Fixed(s) => sadd(prev, s as int),
            _ => prev,
        }
    }
}

/// Flex shares requested by the first `k` sizes, saturating.
pub open spec fn flex_total(sizes: Seq<Size>, k: nat) -> int
    decreases k,
{
    if k == 0 {
        0
    } else {
        let prev = flex_total(sizes, (k - 1) as nat);
        match sizes[k - 1] {
            Size::Flex(f) => sadd(prev, f as int),
            Size::Auto => sadd(prev, 1),
            _ => prev,
        }
    }
}

/// A flex layout.
#[derive(Debug, Clone, Copy, PartialEq, Eq, Structural)]
pub struct FlexLayout {
    pub direction: FlexDirection,
    pub gap: u16,
    pub padding: u16,
    pub align: Alignment,
}

impl FlexLayout {
    /// Cells of one flex share: the space left after gaps and fixed sizes,
    /// divided by the number of shares (0 without shares).
    pub open spec fn unit(self, inner: Rect, sizes: Seq<Size>) -> int {
        let main = match self.direction {
            FlexDirection::Row => inner.width,
            FlexDirection::Column => inner.height,
        };
        let total_gap = smul(self.gap as int, (ssub(sizes.len() as int, 1) as u16) as int);
        let available = ssub(main as int, total_gap);
        let flex_space = ssub(available, fixed_total(sizes, sizes.len()));
        let units = flex_total(sizes, sizes.len());
        if units > 0 {
            flex_space / units
        } else {
            0
        }
    }

    /// Main-axis cells of a child.
    pub open spec fn main_size(unit: int, size: Size) -> int {
        match size {
            Size::Fixed(s) => s as int,
            Size::Flex(f) => smul(unit, f as int),
            Size::Auto => unit,
        }
    }

    /// Main-axis offset of child `k`: the sizes and gaps before it, saturating.
    pub open spec fn offset_of(self, unit: int, sizes: Seq<Size>, k: nat) -> int
        decreases k,
    {
        if k == 0 {
            0
        } else {
            sadd(
                sadd(self.offset_of(unit, sizes, (k - 1) as nat), Self::main_size(unit, sizes[k - 1])),
                self.gap as int,
            )
        }
    }

    /// Cross-axis position of a child in a container.
    pub open spec fn cross(self, base: u16, container: u16, child: u16) -> int {
        match self.align {
            Alignment::Center => sadd(base as int, ssub(container as int, child as int) / 2),
            Alignment::End => sadd(base as int, ssub(container as int, child as int)),
            _ => base as int,
        }
    }

    /// The rectangle of a child at a main-axis offset; children fill the
    /// cross axis.
    pub open spec fn child(self, inner: Rect, offset: int, main: int) -> Rect {
        match self.direction {
            FlexDirection::Row => Rect {
                x: sadd(inner.x as int, offset) as u16,
                y: self.cross(inner.y, inner.height, inner.height) as u16,
                width: main as u16,
                height: inner.height,
            },
            FlexDirection::Column => Rect {
                x: self.cross(inner.x, inner.width, inner.width) as u16,
                y: sadd(inner.y as int, offset) as u16,
                width: inner.width,
                height: main as u16,
            },
        }
    }

    /// A layout along `direction` without gap or padding, stretched.
    pub fn new(direction: FlexDirection) -> (r: Self)
        ensures
            r == (FlexLayout { direction, gap: 0, padding: 0, align: Alignment::Stretch }),
    {
        FlexLayout { direction, gap: 0, padding: 0, align: Alignment::Stretch }
    }

    /// Set the gap between children.
    pub fn gap(self, gap: u16) -> (r: Self)
        ensures
            r == (FlexLayout { gap, ..self }),
    {
        FlexLayout { gap, ..self }
    }

    /// Set the padding inside the container.
    pub fn padding(self, padding: u16) -> (r: Self)
        ensures
            r == (FlexLayout { padding, ..self }),
    {
        FlexLayout { padding, ..self }
    }

    /// Set the cross-axis alignment.
    pub fn align(self, align: Alignment) -> (r: Self)
        ensures
            r == (FlexLayout { align, ..self }),
    {
        FlexLayout { align, ..self }
    }

    fn flex_unit_size(&self, inner: &Rect, sizes: &[Size]) -> (r: u16)
        ensures
            r == self.unit(*inner, sizes@),
    {
        let main_size = match self.direction {
            FlexDirection::Row => inner.width,
            FlexDirection::Column => inner.height,
        };
        let total_gap = sat_mul16(self.gap, sizes.len().saturating_sub(1) as u16);
        let available = main_size.saturating_sub(total_gap);
        let mut fixed_space: u16 = 0;
        let mut flex_units: u16 = 0;
        let mut i: usize = 0;
        while i < sizes.len()
            invariant
                i <= sizes@.len(),
                fixed_space == fixed_total(sizes@, i as nat),
                flex_units == flex_total(sizes@, i as nat),
            decreases sizes@.len() - i,
        {
            match sizes[i] {
                Size::Fixed(s) => fixed_space = fixed_space.saturating_add(s),
                Size::Flex(f) => flex_units = flex_units.saturating_add(f),
                Size::Auto => flex_units = flex_units.saturating_add(1),
            }
            i = i + 1;
        }
        let flex_space = available.saturating_sub(fixed_space);
        if flex_units > 0 {
            flex_space / flex_units
        } else {
            0
        }
    }

    fn calculate_cross_offset(&self, base: u16, container_size: u16, child_size: u16) -> (r: u16)
        ensures
            r == self.cross(base, container_size, child_size),
    {
        match self.align {
            Alignment::Start => base,
            Alignment::Center => base.saturating_add((container_size.saturating_sub(child_size)) / 2),
            Alignment::End => base.saturating_add(container_size.saturating_sub(child_size)),
            Alignment::Stretch => base,
        }
    }

    fn child_rect(&self, inner: &Rect, offset: u16, child_main_size: u16) -> (r: Rect)
        ensures
            r == self.child(*inner, offset as int, child_main_size as int),
    {
        match self.direction {
            FlexDirection::Row => {
                let x = inner.x.saturating_add(offset);
                let y = self.calculate_cross_offset(inner.y, inner.height, inner.height);
                Rect::new(x, y, child_main_size, inner.height)
            },
            FlexDirection::Column => {
                let x = self.calculate_cross_offset(inner.x, inner.width, inner.width);
                let y = inner.y.saturating_add(offset);
                Rect::new(x, y, inner.width, child_main_size)
            },
        }
    }

    /// Lay out children of the given sizes inside `container`: one rectangle
    /// per size, placed along the main axis in order inside the padding.
    pub fn layout(&self, container: Rect, sizes: &[Size]) -> (r: Vec<Rect>)
        ensures
            r@.len() == sizes@.len(),
            forall|k: int|
                0 <= k < sizes@.len() ==> #[trigger] r@[k] == self.child(
                    container.inner_spec(self.padding),
                    self.offset_of(self.unit(container.inner_spec(self.padding), sizes@), sizes@, k as nat),
                    Self::main_size(self.unit(container.inner_spec(self.padding), sizes@), sizes@[k]),
                ),
    {
        if sizes.len() == 0 {
            return Vec::new();
        }
        let inner = container.inner(self.padding);
        let unit = self.flex_unit_size(&inner, sizes);
        let mut rects: Vec<Rect> = Vec::new();
        let mut offset: u16 = 0;
        let mut i: usize = 0;
        while i < sizes.len()
            invariant
                i <= sizes@.len(),
                inner == container.inner_spec(self.padding),
                unit == self.unit(inner, sizes@),
                rects@.len() == i,
                offset == self.offset_of(unit as int, sizes@, i as nat),
                forall|k: int|
                    0 <= k < i ==> #[trigger] rects@[k] == self.child(
                        inner,
                        self.offset_of(unit as int, sizes@, k as nat),
                        Self::main_size(unit as int, sizes@[k]),
                    ),
            decreases sizes@.len() - i,
        {
            let child_main_size: u16 = match sizes[i] {
                Size::Fixed(s) => s,
                Size::Flex(f) => sat_mul16(unit, f),
                Size::Auto => unit,
            };
            let rect = self.child_rect(&inner, offset, child_main_size);
            rects.push(rect);
            offset = offset.saturating_add(child_main_size).saturating_add(self.gap);
            i = i + 1;
        }
        rects
    }
}

} // verus!
