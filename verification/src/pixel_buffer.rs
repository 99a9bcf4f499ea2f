use vstd::prelude::*;

verus! {

/// An RGB color for the pixel buffer.
#[derive(Debug, Clone, Copy, PartialEq, Eq, Structural)]
pub struct Rgb {
    pub r: u8,
    pub g: u8,
    pub b: u8,
}

/// Black, the color of everything outside a picture.
pub open spec fn black() -> Rgb {
    Rgb { r: 0, g: 0, b: 0 }
}

impl Rgb {
    pub fn black() -> (c: Rgb)
        ensures
            c == black(),
    {
        Rgb { r: 0, g: 0, b: 0 }
    }

    pub fn new(r: u8, g: u8, b: u8) -> (c: Rgb)
        ensures
            c == (Rgb { r, g, b }),
    {
        Rgb { r, g, b }
    }
}

/// The picture a pixel buffer holds: `height` rows of `width` colors,
/// stored row after row.
#[verifier::ext_equal]
pub struct Canvas {
    pub width: nat,
    pub height: nat,
    pub pixels: Seq<Rgb>,
}

impl Canvas {
    pub open spec fn wf(self) -> bool {
        self.pixels.len() == self.width * self.height
    }

    pub open spec fn in_bounds(self, x: int, y: int) -> bool {
        0 <= x < self.width && 0 <= y < self.height
    }

    /// Position of pixel (x, y) in the row-major storage.
    pub open spec fn index_of(self, x: int, y: int) -> int {
        y * self.width + x
    }

    /// The color at (x, y); black outside the picture.
    pub open spec fn at(self, x: int, y: int) -> Rgb {
        if self.in_bounds(x, y) {
            self.pixels[self.index_of(x, y)]
        } else {
            black()
        }
    }

    /// The picture with (x, y) painted `color`; unchanged when (x, y) lies outside.
    pub open spec fn set(self, x: int, y: int, color: Rgb) -> Canvas {
        if self.in_bounds(x, y) {
            Canvas { pixels: self.pixels.update(self.index_of(x, y), color), ..self }
        } else {
            self
        }
    }

    /// The picture with every pixel painted `color`.
    pub open spec fn cleared(self, color: Rgb) -> Canvas {
        Canvas { pixels: Seq::new(self.pixels.len(), |i: int| color), ..self }
    }

    /// The picture with the rows `y_start` to `y_end` (inclusive) of column `x`
    /// painted `color`, as far as they lie inside the picture.
    pub open spec fn fill_column(self, x: int, y_start: int, y_end: int, color: Rgb) -> Canvas {
        Canvas {
            pixels: Seq::new(
                self.pixels.len(),
                |i: int|
                    if 0 <= x < self.width && i % (self.width as int) == x && y_start <= i
                        / (self.width as int) <= y_end {
                        color
                    } else {
                        self.pixels[i]
                    },
            ),
            ..self
        }
    }
}

/// Distinct pixels of a picture are stored at distinct positions, all inside the storage.
pub proof fn lemma_index_of(c: Canvas, x: int, y: int)
    requires
        c.in_bounds(x, y),
    ensures
        0 <= c.index_of(x, y) < c.width * c.height,
        c.index_of(x, y) % (c.width as int) == x,
        c.index_of(x, y) / (c.width as int) == y,
{
    let w = c.width as int;
    let h = c.height as int;
    assert(0 <= y * w + x < w * h) by (nonlinear_arith)
        requires
            0 <= x < w,
            0 <= y < h,
    ;
    vstd::arithmetic::div_mod::lemma_fundamental_div_mod_converse(y * w + x, w, y, x);
}

/// A pixel buffer that renders to terminal cells using halfblock characters.
/// Each terminal cell represents 2 vertical pixels.
pub struct PixelBuffer {
    /// Width in pixels (= terminal columns).
    pub width: usize,
    /// Height in pixels (= terminal rows * 2).
    pub height: usize,
    pixels: Vec<Rgb>,
}

impl View for PixelBuffer {
    type V = Canvas;

    closed spec fn view(&self) -> Canvas {
        Canvas { width: self.width as nat, height: self.height as nat, pixels: self.pixels@ }
    }
}

impl PixelBuffer {
    /// The storage holds exactly one color per pixel.
    pub closed spec fn well_formed(&self) -> bool {
        self.pixels@.len() == self.width * self.height
    }

    /// A well-formed buffer holds a well-formed picture.
    pub proof fn lemma_view_wf(&self)
        requires
            self.well_formed(),
        ensures
            self@.wf(),
    {
    }

    /// Width in pixels.
    pub fn width(&self) -> (w: usize)
        ensures
            w == self@.width,
    {
        self.width
    }

    /// Height in pixels.
    pub fn height(&self) -> (h: usize)
        ensures
            h == self@.height,
    {
        self.height
    }

    pub fn new(term_cols: usize, term_rows: usize) -> (pb: Self)
        requires
            term_rows * 2 <= usize::MAX,
            term_cols * (term_rows * 2) <= usize::MAX,
        ensures
            pb.well_formed(),
            pb@.width == term_cols,
            pb@.height == term_rows * 2,
            pb@.wf(),
            forall|x: int, y: int| #[trigger] pb@.at(x, y) == black(),
    {
        let width = term_cols;
        let height = term_rows * 2;
        let n = width * height;
        let mut pixels: Vec<Rgb> = Vec::new();
        while pixels.len() < n
            invariant
                pixels@.len() <= n,
                forall|i: int| 0 <= i < pixels@.len() ==> pixels@[i] == black(),
            decreases n - pixels@.len(),
        {
            pixels.push(Rgb::black());
        }
        let pb = PixelBuffer { width, height, pixels };
        assert forall|x: int, y: int| #[trigger] pb@.at(x, y) == black() by {
            if pb@.in_bounds(x, y) {
                lemma_index_of(pb@, x, y);
            }
        }
        pb
    }

    pub fn clear(&mut self, color: Rgb)
        requires
            old(self).well_formed(),
        ensures
            final(self).well_formed(),
            final(self)@.wf(),
            final(self)@ == old(self)@.cleared(color),
    {
        let n = self.pixels.len();
        let mut i: usize = 0;
        while i < n
            invariant
                self.well_formed(),
                self.width == old(self).width,
                self.height == old(self).height,
                n == self.pixels@.len(),
                i <= n,
                forall|j: int| 0 <= j < i ==> self.pixels@[j] == color,
            decreases n - i,
        {
            self.pixels.set(i, color);
            i = i + 1;
        }
        assert(self.pixels@ =~= Seq::new(n as nat, |j: int| color));
    }

    fn idx(&self, x: usize, y: usize) -> (i: usize)
        requires
            self.well_formed(),
            x < self.width,
            y < self.height,
        ensures
            i == self@.index_of(x as int, y as int),
            i < self.pixels@.len(),
    {
        let len = self.pixels.len();
        proof {
            lemma_index_of(self@, x as int, y as int);
            assert(y * self.width <= y * self.width + x < len);
        }
        y * self.width + x
    }

    pub fn set(&mut self, x: usize, y: usize, color: Rgb)
        requires
            old(self).well_formed(),
        ensures
            final(self).well_formed(),
            final(self)@.wf(),
            final(self)@ == old(self)@.set(x as int, y as int, color),
    {
        if x < self.width && y < self.height {
            let i = self.idx(x, y);
            self.pixels.set(i, color);
        }
    }

    pub fn get(&self, x: usize, y: usize) -> (c: Rgb)
        requires
            self.well_formed(),
        ensures
            c == self@.at(x as int, y as int),
    {
        if x < self.width && y < self.height {
            self.pixels[self.idx(x, y)]
        } else {
            Rgb::black()
        }
    }

    /// Fill a vertical column from y_start to y_end (inclusive) with a color.
    pub fn fill_column(&mut self, x: usize, y_start: usize, y_end: usize, color: Rgb)
        requires
            old(self).well_formed(),
        ensures
            final(self).well_formed(),
            final(self)@.wf(),
            final(self)@ == old(self)@.fill_column(x as int, y_start as int, y_end as int, color),
    {
        let ghost before = self@;
        if x >= self.width || y_start >= self.height {
            let ghost after = before.fill_column(x as int, y_start as int, y_end as int, color);
            assert(self@ =~= after) by {
                assert forall|i: int| 0 <= i < before.pixels.len() implies #[trigger] after.pixels[i]
                    == before.pixels[i] by {
                    if x < before.width {
                        let w = before.width as int;
                        vstd::arithmetic::div_mod::lemma_fundamental_div_mod(i, w);
                        assert(i / w < before.height) by (nonlinear_arith)
                            requires
                                0 <= i < w * before.height,
                                w > 0,
                                i == w * (i / w) + i % w,
                                0 <= i % w,
                        ;
                    }
                }
            }
            return;
        }
        let ys = y_start;
        let ye = if y_end < self.height - 1 { y_end } else { self.height - 1 };
        let ghost w = self.width as int;
        let mut y = ys;
        while y <= ye
            invariant
                self.well_formed(),
                self.width == before.width,
                self.height == before.height,
                self.pixels@.len() == before.pixels.len(),
                x < self.width,
                w == self.width,
                ys <= y,
                y == ys || y <= ye + 1,
                ye < self.height,
                forall|i: int|
                    0 <= i < before.pixels.len() ==> #[trigger] self.pixels@[i] == if i % w == x
                        && ys <= i / w < y {
                        color
                    } else {
                        before.pixels[i]
                    },
            decreases ye + 1 - y,
        {
            let i = self.idx(x, y);
            proof {
                lemma_index_of(self@, x as int, y as int);
            }
            let ghost prev = self.pixels@;
            self.pixels.set(i, color);
            proof {
                assert forall|j: int| 0 <= j < before.pixels.len() implies #[trigger] self.pixels@[j]
                    == if j % w == x && ys <= j / w < y + 1 {
                    color
                } else {
                    before.pixels[j]
                } by {
                    if j != i {
                        assert(prev[j] == self.pixels@[j]);
                        vstd::arithmetic::div_mod::lemma_fundamental_div_mod(j, w);
                        vstd::arithmetic::div_mod::lemma_fundamental_div_mod(i as int, w);
                        if j % w == x && j / w == y {
                            assert(j == (j / w) * w + j % w);
                            assert(j == y * w + x);
                        }
                    }
                }
            }
            y = y + 1;
        }
        let ghost after = before.fill_column(x as int, y_start as int, y_end as int, color);
        assert forall|i: int| 0 <= i < before.pixels.len() implies self.pixels@[i] == after.pixels[i] by {
            assert(self.pixels@[i] == before.pixels[i] || self.pixels@[i] == color);
            vstd::arithmetic::div_mod::lemma_fundamental_div_mod(i, w);
            assert(i / w < before.height) by (nonlinear_arith)
                requires
                    0 <= i < w * before.height,
                    w > 0,
                    i == w * (i / w) + i % w,
                    0 <= i % w,
            ;
        }
        assert(self.pixels@ =~= after.pixels);
        assert(self@ =~= before.fill_column(x as int, y_start as int, y_end as int, color));
    }

    /// The two pixels shown by the terminal cell at (`col`, `row`): the upper one
    /// becomes the cell's background, the lower one its foreground.
    pub fn halfblock_cell(&self, col: u16, row: u16) -> (cell: (Rgb, Rgb))
        requires
            self.well_formed(),
        ensures
            cell.0 == self@.at(col as int, 2 * row),
            cell.1 == self@.at(col as int, 2 * row + 1),
    {
        let py_top = (row as usize) * 2;
        let py_bot = py_top + 1;
        (self.get(col as usize, py_top), self.get(col as usize, py_bot))
    }
}

} // verus!

verus! {

/// Reading a pixel gives back what the last write to it wrote; a write leaves
/// every other pixel, and every write outside the picture leaves all pixels, as they were.
pub proof fn law_read_after_write(c: Canvas, x: int, y: int, color: Rgb, qx: int, qy: int)
    requires
        c.wf(),
    ensures
        c.set(x, y, color).wf(),
        c.set(x, y, color).at(qx, qy) == if c.in_bounds(x, y) && qx == x && qy == y {
            color
        } else {
            c.at(qx, qy)
        },
{
    if c.in_bounds(x, y) && c.in_bounds(qx, qy) && (qx != x || qy != y) {
        lemma_index_of(c, x, y);
        lemma_index_of(c, qx, qy);
    } else if c.in_bounds(x, y) {
        lemma_index_of(c, x, y);
    }
}

/// Writing the same pixel twice keeps only the second color.
pub proof fn law_last_write_wins(c: Canvas, x: int, y: int, first: Rgb, second: Rgb)
    requires
        c.wf(),
    ensures
        c.set(x, y, first).set(x, y, second) == c.set(x, y, second),
{
    if c.in_bounds(x, y) {
        lemma_index_of(c, x, y);
        assert(c.set(x, y, first).set(x, y, second).pixels =~= c.set(x, y, second).pixels);
    }
}

/// Writes to two different pixels can be made in either order.
pub proof fn law_writes_commute(c: Canvas, x1: int, y1: int, a: Rgb, x2: int, y2: int, b: Rgb)
    requires
        c.wf(),
        x1 != x2 || y1 != y2,
    ensures
        c.set(x1, y1, a).set(x2, y2, b) == c.set(x2, y2, b).set(x1, y1, a),
{
    if c.in_bounds(x1, y1) && c.in_bounds(x2, y2) {
        lemma_index_of(c, x1, y1);
        lemma_index_of(c, x2, y2);
        assert(c.set(x1, y1, a).set(x2, y2, b).pixels =~= c.set(x2, y2, b).set(x1, y1, a).pixels);
    }
}

/// After clearing, every pixel of the picture has the clearing color.
pub proof fn law_clear(c: Canvas, color: Rgb, qx: int, qy: int)
    requires
        c.wf(),
    ensures
        c.cleared(color).wf(),
        c.cleared(color).at(qx, qy) == if c.in_bounds(qx, qy) {
            color
        } else {
            black()
        },
{
    if c.in_bounds(qx, qy) {
        lemma_index_of(c, qx, qy);
    }
}

/// Filling a column paints exactly the pixels of that column whose rows lie
/// from `y_start` to `y_end`, and nothing else.
pub proof fn law_fill_column(
    c: Canvas,
    x: int,
    y_start: int,
    y_end: int,
    color: Rgb,
    qx: int,
    qy: int,
)
    requires
        c.wf(),
    ensures
        c.fill_column(x, y_start, y_end, color).wf(),
        c.fill_column(x, y_start, y_end, color).at(qx, qy) == if c.in_bounds(qx, qy) && qx == x
            && y_start <= qy <= y_end {
            color
        } else {
            c.at(qx, qy)
        },
{
    if c.in_bounds(qx, qy) {
        lemma_index_of(c, qx, qy);
    }
}

/// Outside the picture every pixel reads as black: all three channels zero.
pub proof fn law_outside_is_black(c: Canvas, x: int, y: int)
    requires
        !c.in_bounds(x, y),
    ensures
        c.at(x, y).r == 0 && c.at(x, y).g == 0 && c.at(x, y).b == 0,
{
}

} // verus!
