//! The character frame: a rectangular grid of glyphs stored row by row, and the
//! text block that a presentation layer draws from it.
use vstd::prelude::*;

verus! {

/// Width in pixels of one character cell of the output font.
pub const CELL_WIDTH: usize = 8;

/// Height in pixels of one character cell (about twice its width, to make up for
/// the shape of monospace glyphs).
pub const CELL_HEIGHT: usize = 16;

/// A rows-by-cols grid of glyphs; row `r`, column `c` is cell `r * cols + c`.
pub struct FrameBuffer {
    rows: usize,
    cols: usize,
    cells: Vec<char>,
}

/// Cells `[row * cols, (row + 1) * cols)`: one row of the grid.
pub open spec fn row_of(cells: Seq<char>, cols: nat, row: nat) -> Seq<char> {
    cells.subrange((row * cols) as int, ((row + 1) * cols) as int)
}

/// The first `k` lines of the text block: rows `rows - 1` down to `rows - k`,
/// each followed by a line break.
pub open spec fn text_upto(cells: Seq<char>, rows: nat, cols: nat, k: nat) -> Seq<char>
    decreases k,
{
    if k == 0 {
        seq![]
    } else {
        text_upto(cells, rows, cols, (k - 1) as nat) + row_of(cells, cols, (rows - k) as nat).push(
            '\n',
        )
    }
}

/// The text block of a frame: its rows from the last to the first, each ended by
/// a line break, so that row 0 (the lowest pixels) is printed at the bottom.
pub open spec fn text_of(cells: Seq<char>, rows: nat, cols: nat) -> Seq<char> {
    text_upto(cells, rows, cols, rows)
}

impl FrameBuffer {
    /// Number of rows.
    pub closed spec fn spec_rows(&self) -> nat {
        self.rows as nat
    }

    /// Number of columns.
    pub closed spec fn spec_cols(&self) -> nat {
        self.cols as nat
    }

    /// The glyphs, row by row.
    pub closed spec fn spec_cells(&self) -> Seq<char> {
        self.cells@
    }

    /// The grid holds exactly one glyph per cell.
    pub open spec fn wf(&self) -> bool {
        self.spec_cells().len() == self.spec_rows() * self.spec_cols()
    }

    /// A blank frame of the given size, every cell a space.
    pub fn new(rows: usize, cols: usize) -> (f: FrameBuffer)
        requires
            rows * cols <= usize::MAX,
        ensures
            f.wf(),
            f.spec_rows() == rows,
            f.spec_cols() == cols,
            f.spec_cells() == Seq::new((rows * cols) as nat, |i: int| ' '),
    {
        let n: usize = rows * cols;
        let mut cells: Vec<char> = Vec::new();
        let mut i: usize = 0;
        while i < n
            invariant
                i <= n,
                cells@ == Seq::new(i as nat, |j: int| ' '),
            decreases n - i,
        {
            cells.push(' ');
            i = i + 1;
        }
        FrameBuffer { rows, cols, cells }
    }

    /// A blank frame for an output of `width` by `height` pixels: one row per
    /// `CELL_HEIGHT` pixels and one column per `CELL_WIDTH` pixels, rounding down.
    pub fn for_resolution(width: usize, height: usize) -> (f: FrameBuffer)
        requires
            (height / CELL_HEIGHT) * (width / CELL_WIDTH) <= usize::MAX,
        ensures
            f.wf(),
            f.spec_rows() == height / CELL_HEIGHT,
            f.spec_cols() == width / CELL_WIDTH,
            f.spec_cells() == Seq::new(f.spec_rows() * f.spec_cols(), |i: int| ' '),
    {
        FrameBuffer::new(height / CELL_HEIGHT, width / CELL_WIDTH)
    }

    /// A frame that takes over `cells` as its grid, row by row.
    pub fn from_cells(rows: usize, cols: usize, cells: Vec<char>) -> (f: Option<FrameBuffer>)
        ensures
            f.is_some() <==> cells@.len() == rows * cols,
            f matches Some(fb) ==> fb.wf() && fb.spec_rows() == rows && fb.spec_cols() == cols
                && fb.spec_cells() == cells@,
    {
        if cols != 0 && cells.len() / cols == rows && cells.len() % cols == 0 {
            proof {
                let q = cells.len() / cols;
                assert(cells.len() == q * cols) by (nonlinear_arith)
                    requires
                        cols != 0,
                        cells.len() % cols == 0,
                        q == cells.len() / cols,
                ;
                assert(rows * cols == q * cols) by (nonlinear_arith)
                    requires rows == q;
            }
            Some(FrameBuffer { rows, cols, cells })
        } else if cols == 0 && cells.len() == 0 {
            proof {
                assert(rows * cols == 0) by (nonlinear_arith)
                    requires cols == 0;
            }
            Some(FrameBuffer { rows, cols, cells })
        } else {
            proof {
                if cells@.len() == rows * cols && cols != 0 {
                    let n = cells.len() as int;
                    assert(n / cols as int == rows && n % cols as int == 0) by (nonlinear_arith)
                        requires
                            n == rows * cols,
                            cols > 0,
                            rows >= 0,
                    {
                        vstd::arithmetic::div_mod::lemma_fundamental_div_mod_converse(
                            n, cols as int, rows as int, 0);
                    }
                }
            }
            None
        }
    }

    pub fn rows(&self) -> (r: usize)
        ensures
            r == self.spec_rows(),
    {
        self.rows
    }

    pub fn cols(&self) -> (r: usize)
        ensures
            r == self.spec_cols(),
    {
        self.cols
    }

    /// The glyphs, row by row.
    pub fn cells(&self) -> (r: &Vec<char>)
        ensures
            r@ == self.spec_cells(),
    {
        &self.cells
    }

    /// The glyph at `row`, `col`.
    pub fn get(&self, row: usize, col: usize) -> (c: char)
        requires
            self.wf(),
            row < self.spec_rows(),
            col < self.spec_cols(),
        ensures
            c == self.spec_cells()[row * self.spec_cols() + col],
    {
        let n: usize = self.cells.len();
        proof { lemma_cell_in_grid(row as int, col as int, self.rows as int, self.cols as int); }
        self.cells[row * self.cols + col]
    }

    /// Writes `c` at `row`, `col`; every other cell keeps its glyph.
    pub fn set(&mut self, row: usize, col: usize, c: char)
        requires
            old(self).wf(),
            row < old(self).spec_rows(),
            col < old(self).spec_cols(),
        ensures
            final(self).wf(),
            final(self).spec_rows() == old(self).spec_rows(),
            final(self).spec_cols() == old(self).spec_cols(),
            final(self).spec_cells() == old(self).spec_cells().update(
                row * old(self).spec_cols() + col,
                c,
            ),
    {
        let n: usize = self.cells.len();
        proof { lemma_cell_in_grid(row as int, col as int, self.rows as int, self.cols as int); }
        let i: usize = row * self.cols + col;
        self.cells.set(i, c);
    }

    /// The text block to draw: rows from the last to the first, each followed by
    /// a line break.
    pub fn to_text(&self) -> (t: Vec<char>)
        requires
            self.wf(),
        ensures
            t@ == text_of(self.spec_cells(), self.spec_rows(), self.spec_cols()),
    {
        let rows = self.rows;
        let cols = self.cols;
        let n: usize = self.cells.len();
        let mut out: Vec<char> = Vec::new();
        let mut k: usize = 0;
        while k < rows
            invariant
                self.wf(),
                rows == self.rows,
                cols == self.cols,
                k <= rows,
                n == rows * cols,
                out@ == text_upto(self.cells@, rows as nat, cols as nat, k as nat),
            decreases rows - k,
        {
            let row: usize = rows - 1 - k;
            proof { lemma_row_in_grid(row as int, rows as int, cols as int); }
            let start: usize = row * cols;
            let mut j: usize = 0;
            while j < cols
                invariant
                    self.wf(),
                    rows == self.rows,
                    cols == self.cols,
                    k < rows,
                    n == rows * cols,
                    row == rows - 1 - k,
                    start == row * cols,
                    start + cols <= rows * cols,
                    j <= cols,
                    out@ == text_upto(self.cells@, rows as nat, cols as nat, k as nat)
                        + self.cells@.subrange(start as int, start + j),
                decreases cols - j,
            {
                out.push(self.cells[start + j]);
                proof {
                    assert(self.cells@.subrange(start as int, start + j + 1)
                        =~= self.cells@.subrange(start as int, start + j).push(self.cells@[start + j]));
                }
                j = j + 1;
            }
            out.push('\n');
            proof {
                assert(((row + 1) * cols) as int == start + cols) by (nonlinear_arith)
                    requires start == row * cols;
                assert(out@ =~= text_upto(self.cells@, rows as nat, cols as nat, (k + 1) as nat));
            }
            k = k + 1;
        }
        out
    }
}

proof fn lemma_cell_in_grid(row: int, col: int, rows: int, cols: int)
    requires
        0 <= row < rows,
        0 <= col < cols,
    ensures
        row * cols + col < rows * cols,
        0 <= row * cols,
{
    assert(row * cols + col < rows * cols) by (nonlinear_arith)
        requires
            0 <= row < rows,
            0 <= col < cols,
    ;
    assert(0 <= row * cols) by (nonlinear_arith)
        requires
            0 <= row,
            0 <= cols,
    ;
}

proof fn lemma_row_in_grid(row: int, rows: int, cols: int)
    requires
        0 <= row < rows,
        0 <= cols,
    ensures
        0 <= row * cols,
        row * cols + cols <= rows * cols,
{
    assert(row * cols + cols <= rows * cols) by (nonlinear_arith)
        requires
            0 <= row < rows,
            0 <= cols,
    ;
    assert(0 <= row * cols) by (nonlinear_arith)
        requires
            0 <= row,
            0 <= cols,
    ;
}

} // verus!
