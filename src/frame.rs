//! The output grid of one frame, laid out in raster order, and what the display is sent.

use vstd::prelude::*;

use crate::render::{Cell, Rgb};

verus! {

/// Position in the raster-ordered buffer of the pixel at column `col` and row `row`,
/// where row 0 is the bottom row of the image and the buffer starts with the top row.
pub open spec fn cell_pos(cols: int, rows: int, col: int, row: int) -> int {
    (rows - row - 1) * cols + col
}

proof fn lemma_cell_pos_bounds(cols: int, rows: int, col: int, row: int)
    requires
        0 <= col < cols,
        0 <= row < rows,
    ensures
        0 <= cell_pos(cols, rows, col, row) < cols * rows,
        (rows - row - 1) * cols + cols <= cols * rows,
{
    assert(0 <= (rows - row - 1) * cols) by (nonlinear_arith)
        requires
            0 <= col < cols,
            0 <= row < rows,
    ;
    assert((rows - row - 1) * cols + cols <= cols * rows) by (nonlinear_arith)
        requires
            0 <= col < cols,
            0 <= row < rows,
    ;
}

/// Every pixel has a position of its own in the buffer, and all positions lie in it.
pub proof fn lemma_cell_pos_unique(
    cols: int,
    rows: int,
    col1: int,
    row1: int,
    col2: int,
    row2: int,
)
    requires
        0 <= col1 < cols,
        0 <= row1 < rows,
        0 <= col2 < cols,
        0 <= row2 < rows,
    ensures
        0 <= cell_pos(cols, rows, col1, row1) < cols * rows,
        cell_pos(cols, rows, col1, row1) == cell_pos(cols, rows, col2, row2) ==> col1 == col2
            && row1 == row2,
{
    lemma_cell_pos_bounds(cols, rows, col1, row1);
    if cell_pos(cols, rows, col1, row1) == cell_pos(cols, rows, col2, row2) {
        let k1 = rows - row1 - 1;
        let k2 = rows - row2 - 1;
        assert(k1 == k2) by (nonlinear_arith)
            requires
                k1 * cols + col1 == k2 * cols + col2,
                0 <= col1 < cols,
                0 <= col2 < cols,
        ;
    }
}

/// Position in the buffer of a pixel.
pub fn cell_index(cols: u16, rows: u16, col: u16, row: u16) -> (i: usize)
    requires
        col < cols,
        row < rows,
    ensures
        i == cell_pos(cols as int, rows as int, col as int, row as int),
        i < cols as int * rows as int,
{
    proof {
        lemma_cell_pos_bounds(cols as int, rows as int, col as int, row as int);
    }
    let k: u64 = (rows - row - 1) as u64;
    assert(k * cols <= cols as int * rows as int) by (nonlinear_arith)
        requires
            k < rows,
    ;
    assert(cols as int * rows as int <= u32::MAX) by (nonlinear_arith)
        requires
            cols <= u16::MAX,
            rows <= u16::MAX,
    ;
    (k * cols as u64 + col as u64) as usize
}

/// What the display is sent, in order.
#[derive(Debug, Clone, Copy, PartialEq, Eq, Structural)]
pub enum Emit {
    SetForeground(Rgb),
    Glyph(char),
    ResetColor,
}

/// What the display is sent for one cell: its glyph, wrapped in a color change if it has one.
pub open spec fn cell_emits(c: Cell) -> Seq<Emit> {
    match c.color {
        Some(rgb) => seq![Emit::SetForeground(rgb), Emit::Glyph(c.glyph), Emit::ResetColor],
        None => seq![Emit::Glyph(c.glyph)],
    }
}

/// What the display is sent for a sequence of cells, one after the other.
pub open spec fn cells_emits(cells: Seq<Cell>) -> Seq<Emit>
    decreases cells.len(),
{
    if cells.len() == 0 {
        seq![]
    } else {
        cells_emits(cells.drop_last()) + cell_emits(cells.last())
    }
}

/// A full frame of cells, `cols` wide and `rows` high, in raster order (top row first).
pub struct Frame {
    cols: u16,
    rows: u16,
    cells: Vec<Cell>,
}

impl Frame {
    pub closed spec fn spec_cols(&self) -> nat {
        self.cols as nat
    }

    pub closed spec fn spec_rows(&self) -> nat {
        self.rows as nat
    }

    /// The cells in raster order.
    pub closed spec fn view_cells(&self) -> Seq<Cell> {
        self.cells@
    }

    /// The buffer holds one cell for each pixel.
    pub open spec fn wf(&self) -> bool {
        self.view_cells().len() == self.spec_cols() * self.spec_rows()
    }

    /// The cell of the pixel at column `col` and row `row` (row 0 at the bottom).
    pub open spec fn spec_cell(&self, col: int, row: int) -> Cell {
        self.view_cells()[cell_pos(self.spec_cols() as int, self.spec_rows() as int, col, row)]
    }

    /// Assembles a frame from its rows, given bottom row first, each `cols` cells long.
    ///
    /// The cell at column `c` of `by_row[r]` lands at the buffer position of pixel `(c, r)`,
    /// whatever order the rows were computed in.
    pub fn from_rows(cols: u16, rows: u16, by_row: &Vec<Vec<Cell>>) -> (f: Frame)
        requires
            by_row@.len() == rows,
            forall|r: int| 0 <= r < rows ==> (#[trigger] by_row@[r])@.len() == cols,
        ensures
            f.wf(),
            f.spec_cols() == cols,
            f.spec_rows() == rows,
            forall|c: int, r: int|
                0 <= c < cols && 0 <= r < rows ==> #[trigger] f.spec_cell(c, r) == by_row@[r]@[c],
    {
        let mut cells: Vec<Cell> = Vec::new();
        let mut k: u16 = 0;
        while k < rows
            invariant
                k <= rows,
                by_row@.len() == rows,
                forall|r: int| 0 <= r < rows ==> (#[trigger] by_row@[r])@.len() == cols,
                cells@.len() == k as int * cols as int,
                forall|kk: int, c: int|
                    0 <= kk < k && 0 <= c < cols ==> #[trigger] cells@[kk * cols + c] == by_row@[rows
                        - kk - 1]@[c],
            decreases rows - k,
        {
            let row = &by_row[rows as usize - k as usize - 1];
            let mut c: u16 = 0;
            let ghost base = cells@.len();
            while c < cols
                invariant
                    k < rows,
                    c <= cols,
                    row@.len() == cols,
                    row@ == by_row@[rows - k - 1]@,
                    base == k as int * cols as int,
                    cells@.len() == base + c,
                    forall|kk: int, cc: int|
                        0 <= kk < k && 0 <= cc < cols ==> #[trigger] cells@[kk * cols + cc]
                            == by_row@[rows - kk - 1]@[cc],
                    forall|cc: int| 0 <= cc < c ==> #[trigger] cells@[base + cc] == row@[cc],
                decreases cols - c,
            {
                let ghost before = cells@;
                cells.push(row[c as usize]);
                proof {
                    assert forall|kk: int, cc: int| 0 <= kk < k && 0 <= cc < cols implies #[trigger] cells@[kk
                        * cols + cc] == by_row@[rows - kk - 1]@[cc] by {
                        assert(kk * cols + cc < base) by (nonlinear_arith)
                            requires
                                0 <= kk < k,
                                0 <= cc < cols,
                                base == k as int * cols as int,
                        ;
                        assert(cells@[kk * cols + cc] == before[kk * cols + cc]);
                    }
                }
                c = c + 1;
            }
            proof {
                assert((k + 1) as int * cols as int == base + cols) by (nonlinear_arith)
                    requires
                        base == k as int * cols as int,
                ;
                assert forall|kk: int, cc: int| 0 <= kk < k + 1 && 0 <= cc < cols implies #[trigger] cells@[kk
                    * cols + cc] == by_row@[rows - kk - 1]@[cc] by {
                    if kk == k {
                        assert(kk * cols + cc == base + cc);
                    }
                }
            }
            k = k + 1;
        }
        let f = Frame { cols, rows, cells };
        proof {
            assert(rows as int * cols as int == cols as int * rows as int) by (nonlinear_arith);
            assert forall|c: int, r: int| 0 <= c < cols && 0 <= r < rows implies #[trigger] f.spec_cell(c, r)
                == by_row@[r]@[c] by {
                let kk = rows - r - 1;
                assert(cell_pos(cols as int, rows as int, c, r) == kk * cols + c);
            }
        }
        f
    }
}

impl Frame {
    /// Width in cells.
    pub fn cols(&self) -> (c: u16)
        ensures
            c == self.spec_cols(),
    {
        self.cols
    }

    /// Height in cells.
    pub fn rows(&self) -> (r: u16)
        ensures
            r == self.spec_rows(),
    {
        self.rows
    }

    /// The cell of the pixel at column `col` and row `row` (row 0 at the bottom).
    pub fn cell(&self, col: u16, row: u16) -> (c: Cell)
        requires
            self.wf(),
            col < self.spec_cols(),
            row < self.spec_rows(),
        ensures
            c == self.spec_cell(col as int, row as int),
    {
        let i = cell_index(self.cols, self.rows, col, row);
        self.cells[i]
    }

    /// What the display is sent for this frame: the cells in raster order, each as its
    /// glyph, wrapped in a color change where the cell has a color.
    pub fn emission(&self) -> (e: Vec<Emit>)
        ensures
            e@ == cells_emits(self.view_cells()),
    {
        let mut e: Vec<Emit> = Vec::new();
        let n = self.cells.len();
        let mut i: usize = 0;
        while i < n
            invariant
                i <= n,
                n == self.cells@.len(),
                e@ == cells_emits(self.cells@.subrange(0, i as int)),
            decreases n - i,
        {
            let c = self.cells[i];
            match c.color {
                Some(rgb) => {
                    e.push(Emit::SetForeground(rgb));
                    e.push(Emit::Glyph(c.glyph));
                    e.push(Emit::ResetColor);
                },
                None => {
                    e.push(Emit::Glyph(c.glyph));
                },
            }
            proof {
                let next = self.cells@.subrange(0, i + 1);
                assert(next.drop_last() =~= self.cells@.subrange(0, i as int));
                assert(next.last() == c);
                assert(e@ =~= cells_emits(next));
            }
            i = i + 1;
        }
        assert(self.cells@.subrange(0, n as int) =~= self.cells@);
        e
    }
}

} // verus!
