//! A fixed-size grid of colours in one row-major buffer.

use vstd::prelude::*;
use crate::color::Color;

verus! {

/// Row-major address of `(x, y)` in a grid `width` cells wide.
pub open spec fn index_of(width: u32, x: u32, y: u32) -> int {
    x + width * y
}

/// A `width` by `height` grid of colours.
///
/// The buffer always holds exactly `width * height` cells.
#[derive(Debug)]
pub struct Canvas {
    width: u32,
    height: u32,
    pixels: Vec<Color>,
}

impl View for Canvas {
    type V = Seq<Color>;

    /// The cells, row after row.
    closed spec fn view(&self) -> Seq<Color> {
        self.pixels@
    }
}

impl Clone for Canvas {
    /// A canvas of the same dimensions with the same colour in every cell.
    fn clone(&self) -> (c: Canvas)
        ensures
            c.width() == self.width(),
            c.height() == self.height(),
            c@ == self@,
    {
        proof {
            use_type_invariant(self);
        }
        let mut pixels: Vec<Color> = Vec::with_capacity(self.pixels.len());
        let mut n: usize = 0;
        while n < self.pixels.len()
            invariant
                n <= self.pixels@.len(),
                pixels@ == self.pixels@.take(n as int),
            decreases self.pixels@.len() - n,
        {
            pixels.push(self.pixels[n]);
            assert(self.pixels@.take(n + 1) == self.pixels@.take(n as int).push(
                self.pixels@[n as int],
            ));
            n = n + 1;
        }
        assert(self.pixels@.take(n as int) == self.pixels@);
        Canvas { width: self.width, height: self.height, pixels }
    }
}

impl Canvas {
    #[verifier::type_invariant]
    spec fn inv(&self) -> bool {
        &&& self.width * self.height <= u32::MAX
        &&& self.pixels@.len() == self.width * self.height
    }

    /// Number of columns.
    pub closed spec fn spec_width(&self) -> u32 {
        self.width
    }

    /// Number of rows.
    pub closed spec fn spec_height(&self) -> u32 {
        self.height
    }

    /// `(x, y)` names a cell of this canvas.
    pub open spec fn contains(&self, x: u32, y: u32) -> bool {
        x < self.width() && y < self.height()
    }

    /// The colour at `(x, y)`.
    pub open spec fn pixel(&self, x: u32, y: u32) -> Color {
        self@[index_of(self.width(), x, y)]
    }

    /// A canvas of `width * height` cells, all black. With a zero dimension
    /// it holds no cell.
    pub fn new(width: u32, height: u32) -> (c: Canvas)
        requires
            width * height <= u32::MAX,
        ensures
            c.width() == width,
            c.height() == height,
            c@.len() == width * height,
            forall|i: int| 0 <= i < c@.len() ==> c@[i] == Color::black(),
    {
        let size: u32 = width * height;
        let mut pixels: Vec<Color> = Vec::with_capacity(size as usize);
        let mut n: u32 = 0;
        while n < size
            invariant
                n <= size,
                pixels@.len() == n,
                forall|i: int| 0 <= i < pixels@.len() ==> pixels@[i] == Color::black(),
            decreases size - n,
        {
            pixels.push(Color::black());
            n = n + 1;
        }
        Canvas { width, height, pixels }
    }

    /// Number of columns.
    #[verifier::when_used_as_spec(spec_width)]
    pub fn width(&self) -> (w: u32)
        ensures
            w == self.width(),
    {
        self.width
    }

    /// Number of rows.
    #[verifier::when_used_as_spec(spec_height)]
    pub fn height(&self) -> (h: u32)
        ensures
            h == self.height(),
    {
        self.height
    }

    /// Whether `(x, y)` names a cell of this canvas.
    pub fn in_bounds(&self, x: u32, y: u32) -> (r: bool)
        ensures
            r == self.contains(x, y),
    {
        x < self.width && y < self.height
    }

    /// Overwrites the cell at `(x, y)` and no other.
    pub fn write_pixel(&mut self, x: u32, y: u32, color: Color)
        requires
            old(self).contains(x, y),
        ensures
            final(self).width() == old(self).width(),
            final(self).height() == old(self).height(),
            final(self)@ == old(self)@.update(index_of(old(self).width(), x, y), color),
            final(self).pixel(x, y) == color,
            forall|i: u32, j: u32|
                old(self).contains(i, j) && (i != x || j != y) ==> #[trigger] final(self).pixel(i, j)
                    == old(self).pixel(i, j),
    {
        proof {
            use_type_invariant(&*self);
            lemma_index_in_range(self.width, self.height, x, y);
            assert forall|i: u32, j: u32| self.contains(i, j) && (i != x || j != y) implies index_of(
                self.width,
                i,
                j,
            ) != index_of(self.width, x, y) && 0 <= #[trigger] index_of(self.width, i, j)
                < self@.len() by {
                lemma_index_in_range(self.width, self.height, i, j);
                lemma_index_injective(self.width, i, j, x, y);
            }
        }
        let index: usize = self.calc_index(x, y);
        self.pixels[index] = color;
    }

    /// The colour of the cell at `(x, y)`.
    pub fn pixel_at(&self, x: u32, y: u32) -> (c: Color)
        requires
            self.contains(x, y),
        ensures
            c == self.pixel(x, y),
    {
        proof {
            use_type_invariant(self);
            lemma_index_in_range(self.width, self.height, x, y);
        }
        let index: usize = self.calc_index(x, y);
        self.pixels[index]
    }

    /// Overwrites the cell at `(x, y)` if the canvas has one, and says
    /// whether it did. Coordinates outside the canvas change nothing.
    pub fn checked_write_pixel(&mut self, x: u32, y: u32, color: Color) -> (written: bool)
        ensures
            written == old(self).contains(x, y),
            final(self).width() == old(self).width(),
            final(self).height() == old(self).height(),
            written ==> final(self)@ == old(self)@.update(
                index_of(old(self).width(), x, y),
                color,
            ),
            !written ==> final(self)@ == old(self)@,
    {
        if self.in_bounds(x, y) {
            self.write_pixel(x, y, color);
            true
        } else {
            false
        }
    }

    /// The colour of the cell at `(x, y)`, or `None` for coordinates outside
    /// the canvas.
    pub fn checked_pixel_at(&self, x: u32, y: u32) -> (c: Option<Color>)
        ensures
            c == (if self.contains(x, y) {
                Some(self.pixel(x, y))
            } else {
                None
            }),
    {
        if self.in_bounds(x, y) {
            Some(self.pixel_at(x, y))
        } else {
            None
        }
    }

    /// Row-major address of `(x, y)`: `x + width * y`.
    pub fn calc_index(&self, x: u32, y: u32) -> (index: usize)
        requires
            index_of(self.width(), x, y) <= u32::MAX,
        ensures
            index == index_of(self.width(), x, y),
            self.contains(x, y) ==> index < self@.len(),
    {
        proof {
            use_type_invariant(self);
            if self.contains(x, y) {
                lemma_index_in_range(self.width, self.height, x, y);
            }
        }
        assert(self.width * y <= u32::MAX) by (nonlinear_arith)
            requires
                x + self.width * y <= u32::MAX,
        ;
        let ans: u32 = x + self.width * y;
        ans as usize
    }

    /// Number of cells in the buffer, always `width * height`.
    pub fn len(&self) -> (n: usize)
        ensures
            n == self@.len(),
            n == self.width() * self.height(),
            n <= u32::MAX,
    {
        proof {
            use_type_invariant(self);
        }
        self.pixels.len()
    }

    /// Number of cells, `width * height`.
    pub fn size(self) -> (n: u32)
        ensures
            n == self.width() * self.height(),
            n == self@.len(),
    {
        proof {
            use_type_invariant(&self);
        }
        self.width * self.height
    }
}

/// The address of a cell inside a `width` by `height` grid lies inside its
/// buffer of `width * height` cells.
pub proof fn lemma_index_in_range(width: u32, height: u32, x: u32, y: u32)
    requires
        x < width,
        y < height,
    ensures
        0 <= index_of(width, x, y) < width * height,
{
    assert(width * y + width <= width * height) by (nonlinear_arith)
        requires
            y < height,
    ;
}

/// Two different coordinates inside one grid never share an address.
pub proof fn lemma_index_injective(width: u32, x1: u32, y1: u32, x2: u32, y2: u32)
    requires
        x1 < width,
        x2 < width,
        x1 != x2 || y1 != y2,
    ensures
        index_of(width, x1, y1) != index_of(width, x2, y2),
{
    if y1 < y2 {
        assert(width * y1 + width <= width * y2) by (nonlinear_arith)
            requires
                y1 < y2,
        ;
    } else if y2 < y1 {
        assert(width * y2 + width <= width * y1) by (nonlinear_arith)
            requires
                y2 < y1,
        ;
    }
}

} // verus!
