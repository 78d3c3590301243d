//! The preview's framebuffer: `width * height` packed pixels, row by row from
//! the top, filled one finished row at a time.
use vstd::prelude::*;

verus! {

/// What a frame holds, as mathematical values.
pub struct FrameView {
    /// Pixels per row.
    pub width: nat,
    /// Number of rows.
    pub height: nat,
    /// Rows placed so far; the next row goes to this row index.
    pub rows: nat,
    /// All pixels, row after row.
    pub pixels: Seq<u32>,
}

impl FrameView {
    /// The pixel count matches the size, and no more rows are placed than fit.
    pub open spec fn wf(self) -> bool {
        self.pixels.len() == self.width * self.height && self.rows <= self.height
    }

    /// Whether `row` can be placed: it is exactly one row wide and a row is
    /// still free.
    pub open spec fn accepts(self, row: Seq<u32>) -> bool {
        row.len() == self.width && self.rows < self.height
    }

    /// The index of the first pixel of the next free row.
    pub open spec fn base(self) -> int {
        (self.rows * self.width) as int
    }

    /// The frame after `row` went into the next free row.
    pub open spec fn with_row(self, row: Seq<u32>) -> FrameView {
        FrameView {
            width: self.width,
            height: self.height,
            rows: self.rows + 1,
            pixels: Seq::new(
                self.pixels.len(),
                |k: int|
                    if self.base() <= k < self.base() + self.width {
                        row[k - self.base()]
                    } else {
                        self.pixels[k]
                    },
            ),
        }
    }

    /// The frame after each of `rows` was offered in turn; a row that is not
    /// accepted leaves the frame as it is.
    pub open spec fn with_rows(self, rows: Seq<Seq<u32>>) -> FrameView
        decreases rows.len(),
    {
        if rows.len() == 0 {
            self
        } else {
            let before = self.with_rows(rows.drop_last());
            if before.accepts(rows.last()) {
                before.with_row(rows.last())
            } else {
                before
            }
        }
    }
}

/// A framebuffer together with the number of rows already placed in it.
pub struct Frame {
    width: u32,
    height: u32,
    rows: u32,
    pixels: Vec<u32>,
}

impl View for Frame {
    type V = FrameView;

    closed spec fn view(&self) -> FrameView {
        FrameView {
            width: self.width as nat,
            height: self.height as nat,
            rows: self.rows as nat,
            pixels: self.pixels@,
        }
    }
}

impl Frame {
    /// Takes `pixels` as the framebuffer of a `width` by `height` image with
    /// no row placed yet; `None` when the pixel count is not `width * height`.
    pub fn new(pixels: Vec<u32>, width: u32, height: u32) -> (frame: Option<Frame>)
        ensures
            frame is Some <==> pixels@.len() == width * height,
            frame is Some ==> frame.unwrap()@ == (FrameView {
                width: width as nat,
                height: height as nat,
                rows: 0,
                pixels: pixels@,
            }),
            frame is Some ==> frame.unwrap()@.wf(),
    {
        assert(width * height <= 0xFFFF_FFFF * 0xFFFF_FFFF) by (nonlinear_arith)
            requires
                0 <= width <= 0xFFFF_FFFF,
                0 <= height <= 0xFFFF_FFFF,
        ;
        let area: u64 = (width as u64) * (height as u64);
        if pixels.len() as u64 == area {
            Some(Frame { width, height, rows: 0, pixels })
        } else {
            None
        }
    }

    /// Pixels per row.
    pub fn width(&self) -> (w: u32)
        ensures
            w == self@.width,
    {
        self.width
    }

    /// Number of rows.
    pub fn height(&self) -> (h: u32)
        ensures
            h == self@.height,
    {
        self.height
    }

    /// Rows placed so far.
    pub fn rows(&self) -> (n: u32)
        ensures
            n == self@.rows,
    {
        self.rows
    }

    /// Whether every row has been placed.
    pub fn is_full(&self) -> (full: bool)
        ensures
            full == (self@.rows == self@.height),
    {
        self.rows == self.height
    }

    /// All pixels, row after row from the top.
    pub fn pixels(&self) -> (all: &Vec<u32>)
        ensures
            all@ == self@.pixels,
    {
        &self.pixels
    }

    /// Copies `row` into the next free row, counted from the top. Returns
    /// whether it did: a row of another width, or any row once the frame is
    /// full, leaves the frame unchanged.
    pub fn place_row(&mut self, row: &[u32]) -> (placed: bool)
        requires
            old(self)@.wf(),
        ensures
            final(self)@.wf(),
            placed == old(self)@.accepts(row@),
            placed ==> final(self)@ == old(self)@.with_row(row@),
            !placed ==> final(self)@ == old(self)@,
    {
        if self.rows >= self.height || row.len() as u64 != self.width as u64 {
            return false;
        }
        let width: usize = row.len();
        let total: usize = self.pixels.len();
        proof {
            lemma_row_fits(self@);
            assert(self.rows * width == self@.base());
            assert(self@.base() + width <= total);
        }
        let base: usize = (self.rows as usize) * width;
        let mut i: usize = 0;
        while i < width
            invariant
                i <= width,
                width == row@.len(),
                width == self.width,
                base == old(self)@.base(),
                base + width <= total,
                total == self.pixels@.len(),
                self.width == old(self).width,
                self.height == old(self).height,
                self.rows == old(self).rows,
                self.pixels@.len() == old(self).pixels@.len(),
                forall|k: int|
                    0 <= k < self.pixels@.len() ==> #[trigger] self.pixels@[k] == (if base <= k
                        < base + i {
                        row@[k - base]
                    } else {
                        old(self).pixels@[k]
                    }),
            decreases width - i,
        {
            self.pixels.set(base + i, row[i]);
            i += 1;
        }
        self.rows = self.rows + 1;
        assert(self@.pixels =~= old(self)@.with_row(row@).pixels);
        true
    }
}

/// After a row was placed it can be read back at its place, and every other
/// pixel is as before.
pub proof fn lemma_placed_row_reads_back(frame: FrameView, row: Seq<u32>, x: int)
    requires
        frame.wf(),
        frame.accepts(row),
        0 <= x < frame.width,
    ensures
        frame.with_row(row).wf(),
        frame.with_row(row).pixels[frame.rows * frame.width + x] == row[x],
        forall|k: int|
            0 <= k < frame.base() || frame.base() + frame.width <= k < frame.pixels.len()
                ==> frame.with_row(row).pixels[k] == frame.pixels[k],
{
    lemma_row_fits(frame);
}

/// The next free row of a frame that is not full lies inside its pixels.
pub proof fn lemma_row_fits(frame: FrameView)
    requires
        frame.wf(),
        frame.rows < frame.height,
    ensures
        0 <= frame.base(),
        frame.base() + frame.width <= frame.pixels.len(),
{
    let rows = frame.rows as int;
    let width = frame.width as int;
    let height = frame.height as int;
    assert(0 <= rows * width && rows * width + width <= width * height) by (nonlinear_arith)
        requires
            0 <= rows < height,
            0 <= width,
    ;
}

/// Rows that are placed one after the other stand in the frame in the order
/// in which they came, from the first free row downwards, and the pixels
/// above and below them are as before.
pub proof fn lemma_rows_in_order(frame: FrameView, rows: Seq<Seq<u32>>)
    requires
        frame.wf(),
        frame.rows + rows.len() <= frame.height,
        forall|i: int| 0 <= i < rows.len() ==> (#[trigger] rows[i]).len() == frame.width,
    ensures
        frame.with_rows(rows).wf(),
        frame.with_rows(rows).width == frame.width,
        frame.with_rows(rows).height == frame.height,
        frame.with_rows(rows).rows == frame.rows + rows.len(),
        forall|r: int, x: int|
            0 <= r < rows.len() && 0 <= x < frame.width ==> frame.with_rows(rows).pixels[(frame.rows
                + r) * frame.width + x] == #[trigger] rows[r][x],
        forall|k: int|
            0 <= k < frame.base() || (frame.rows + rows.len()) * frame.width <= k
                < frame.pixels.len() ==> frame.with_rows(rows).pixels[k] == frame.pixels[k],
    decreases rows.len(),
{
    if rows.len() > 0 {
        let earlier = rows.drop_last();
        let before = frame.with_rows(earlier);
        let last = rows.last();
        let after = frame.with_rows(rows);
        let width = frame.width as int;
        lemma_rows_in_order(frame, earlier);
        assert(before.accepts(last));
        assert(after == before.with_row(last));
        lemma_row_fits(before);
        assert(before.base() == (frame.rows + earlier.len()) * width);
        assert((frame.rows + rows.len()) * width == before.base() + width) by (nonlinear_arith)
            requires
                before.base() == (frame.rows + earlier.len()) * width,
                rows.len() == earlier.len() + 1,
        ;
        assert(frame.base() <= before.base()) by (nonlinear_arith)
            requires
                frame.base() == frame.rows * width,
                before.base() == (frame.rows + earlier.len()) * width,
                0 <= width,
                0 <= earlier.len(),
        ;
        assert forall|r: int, x: int| 0 <= r < rows.len() && 0 <= x < frame.width implies after.pixels[(
        frame.rows + r) * frame.width + x] == #[trigger] rows[r][x] by {
            let k = (frame.rows + r) * width + x;
            if r == rows.len() - 1 {
                assert(k == before.base() + x);
            } else {
                assert(earlier[r] == rows[r]);
                assert(0 <= k < before.base()) by (nonlinear_arith)
                    requires
                        k == (frame.rows + r) * width + x,
                        before.base() == (frame.rows + earlier.len()) * width,
                        0 <= r < earlier.len(),
                        0 <= x < width,
                        0 <= frame.rows,
                ;
                assert(before.pixels[k] == earlier[r][x]);
            }
        }
    }
}

} // verus!
