//! A fixed-shape two-dimensional container of cells, stored row by row.

use vstd::prelude::*;
use crate::cell::Cell;

verus! {

/// Why a grid refused a coordinate.
#[derive(Clone, Copy, Debug, PartialEq, Eq, Structural)]
pub enum GridError {
    IndexOutOfRange,
}

/// `rows * cols` cells in row-major order: index `i` is the cell in row
/// `i / cols` and column `i % cols`.
#[derive(Clone, Debug)]
pub struct Grid {
    rows: usize,
    cols: usize,
    cells: Vec<Cell>,
}

/// The index of the cell at `(row, col)` in a grid that is `cols` wide.
pub open spec fn flat_index(cols: int, row: int, col: int) -> int {
    row * cols + col
}

/// A cell inside the shape has an index inside the sequence, and the index
/// gives the row and the column back.
pub proof fn lemma_flat_index(rows: int, cols: int, row: int, col: int)
    requires
        0 <= row < rows,
        0 <= col < cols,
    ensures
        0 <= flat_index(cols, row, col) < rows * cols,
        flat_index(cols, row, col) / cols == row,
        flat_index(cols, row, col) % cols == col,
{
    assert(row * cols + col < rows * cols) by (nonlinear_arith)
        requires
            0 <= row < rows,
            0 <= col < cols,
    ;
    assert(row * cols >= 0) by (nonlinear_arith)
        requires
            0 <= row,
            0 < cols,
    ;
    vstd::arithmetic::div_mod::lemma_fundamental_div_mod_converse(
        row * cols + col,
        cols,
        row,
        col,
    );
}

/// An index inside the sequence names a cell inside the shape.
pub proof fn lemma_index_in_shape(rows: int, cols: int, index: int)
    requires
        0 <= index < rows * cols,
        cols >= 1,
    ensures
        0 <= index / cols < rows,
        0 <= index % cols < cols,
        flat_index(cols, index / cols, index % cols) == index,
{
    vstd::arithmetic::div_mod::lemma_fundamental_div_mod(index, cols);
    assert(cols * (index / cols) == (index / cols) * cols) by (nonlinear_arith);
    assert(0 <= index / cols < rows) by (nonlinear_arith)
        requires
            0 <= index < rows * cols,
            cols >= 1,
            index == (index / cols) * cols + index % cols,
            0 <= index % cols < cols,
    ;
}

impl View for Grid {
    type V = Seq<Cell>;

    closed spec fn view(&self) -> Seq<Cell> {
        self.cells@
    }
}

impl Grid {
    pub closed spec fn spec_rows(&self) -> usize {
        self.rows
    }

    pub closed spec fn spec_cols(&self) -> usize {
        self.cols
    }

    /// The shape is not degenerate and the sequence fills it exactly.
    pub closed spec fn wf(&self) -> bool {
        &&& self.rows >= 1
        &&& self.cols >= 1
        &&& self.cells@.len() == self.rows * self.cols
        &&& self.rows * self.cols <= usize::MAX
    }

    /// What a well-formed grid offers, over the public view.
    pub proof fn lemma_wf(&self)
        ensures
            self.wf() ==> self.rows() >= 1 && self.cols() >= 1 && self@.len() == self.rows()
                * self.cols(),
    {
    }

    /// A grid of the given shape over `cells`, or nothing when the shape is
    /// degenerate or the cells do not fill it exactly.
    pub fn new(rows: usize, cols: usize, cells: Vec<Cell>) -> (grid: Option<Grid>)
        ensures
            grid.is_some() <==> rows >= 1 && cols >= 1 && cells@.len() == rows * cols,
            grid.is_some() ==> {
                &&& grid.unwrap().wf()
                &&& grid.unwrap().rows() == rows
                &&& grid.unwrap().cols() == cols
                &&& grid.unwrap()@ == cells@
            },
    {
        let len: usize = cells.len();
        if rows == 0 || cols == 0 {
            return None;
        }
        match rows.checked_mul(cols) {
            Some(n) => {
                if n == len {
                    Some(Grid { rows, cols, cells })
                } else {
                    None
                }
            },
            None => None,
        }
    }

    #[verifier::when_used_as_spec(spec_rows)]
    pub fn rows(&self) -> (r: usize)
        ensures
            r == self.spec_rows(),
    {
        self.rows
    }

    #[verifier::when_used_as_spec(spec_cols)]
    pub fn cols(&self) -> (c: usize)
        ensures
            c == self.spec_cols(),
    {
        self.cols
    }

    /// The number of cells.
    pub fn len(&self) -> (n: usize)
        ensures
            n == self@.len(),
    {
        self.cells.len()
    }

    /// The cell at `(row, col)`.
    pub fn get(&self, row: usize, col: usize) -> (cell: Result<Cell, GridError>)
        requires
            self.wf(),
        ensures
            cell.is_ok() <==> row < self.rows() && col < self.cols(),
            cell.is_ok() ==> cell.unwrap() == self@[flat_index(
                self.cols() as int,
                row as int,
                col as int,
            )],
            cell.is_err() ==> cell.unwrap_err() == GridError::IndexOutOfRange,
    {
        if row >= self.rows || col >= self.cols {
            return Err(GridError::IndexOutOfRange);
        }
        proof {
            lemma_flat_index(self.rows as int, self.cols as int, row as int, col as int);
        }
        Ok(self.cells[row * self.cols + col])
    }

    /// The cell at a row-major index.
    pub fn cell(&self, index: usize) -> (cell: Result<Cell, GridError>)
        ensures
            cell.is_ok() <==> index < self@.len(),
            cell.is_ok() ==> cell.unwrap() == self@[index as int],
            cell.is_err() ==> cell.unwrap_err() == GridError::IndexOutOfRange,
    {
        if index >= self.cells.len() {
            return Err(GridError::IndexOutOfRange);
        }
        Ok(self.cells[index])
    }

    /// Repaints the background of the cell at `(row, col)`; every other field
    /// of every cell stays.
    pub fn set_background(&mut self, row: usize, col: usize, color: u8) -> (done: Result<
        (),
        GridError,
    >)
        requires
            old(self).wf(),
        ensures
            final(self).wf(),
            final(self).rows() == old(self).rows(),
            final(self).cols() == old(self).cols(),
            done.is_ok() <==> row < old(self).rows() && col < old(self).cols(),
            done.is_ok() ==> final(self)@ == old(self)@.update(
                flat_index(old(self).cols() as int, row as int, col as int),
                old(self)@[flat_index(old(self).cols() as int, row as int, col as int)].on(color),
            ),
            done.is_err() ==> done.unwrap_err() == GridError::IndexOutOfRange && final(self)@
                == old(self)@,
    {
        if row >= self.rows || col >= self.cols {
            return Err(GridError::IndexOutOfRange);
        }
        proof {
            lemma_flat_index(self.rows as int, self.cols as int, row as int, col as int);
        }
        let index: usize = row * self.cols + col;
        let cell = self.cells[index];
        self.cells.set(index, Cell::new(cell.glyph, cell.foreground, color));
        Ok(())
    }

    /// Repaints the background of the cell at a row-major index.
    pub fn set_background_at(&mut self, index: usize, color: u8) -> (done: Result<(), GridError>)
        ensures
            final(self).wf() == old(self).wf(),
            final(self).rows() == old(self).rows(),
            final(self).cols() == old(self).cols(),
            done.is_ok() <==> index < old(self)@.len(),
            done.is_ok() ==> final(self)@ == old(self)@.update(
                index as int,
                old(self)@[index as int].on(color),
            ),
            done.is_err() ==> done.unwrap_err() == GridError::IndexOutOfRange && final(self)@
                == old(self)@,
    {
        if index >= self.cells.len() {
            return Err(GridError::IndexOutOfRange);
        }
        let cell = self.cells[index];
        self.cells.set(index, Cell::new(cell.glyph, cell.foreground, color));
        Ok(())
    }

    /// Replaces the glyph of the cell at a row-major index; its colours stay.
    pub fn set_glyph_at(&mut self, index: usize, glyph: char) -> (done: Result<(), GridError>)
        ensures
            final(self).wf() == old(self).wf(),
            final(self).rows() == old(self).rows(),
            final(self).cols() == old(self).cols(),
            done.is_ok() <==> index < old(self)@.len(),
            done.is_ok() ==> final(self)@ == old(self)@.update(
                index as int,
                old(self)@[index as int].holding(glyph),
            ),
            done.is_err() ==> done.unwrap_err() == GridError::IndexOutOfRange && final(self)@
                == old(self)@,
    {
        if index >= self.cells.len() {
            return Err(GridError::IndexOutOfRange);
        }
        let cell = self.cells[index];
        self.cells.set(index, Cell::new(glyph, cell.foreground, cell.background));
        Ok(())
    }

    /// The cells of one row, left to right.
    pub fn row(&self, row: usize) -> (cells: Result<Vec<Cell>, GridError>)
        requires
            self.wf(),
        ensures
            cells.is_ok() <==> row < self.rows(),
            cells.is_ok() ==> cells.unwrap()@ == self@.subrange(
                row * self.cols(),
                row * self.cols() + self.cols(),
            ),
            cells.is_err() ==> cells.unwrap_err() == GridError::IndexOutOfRange,
    {
        if row >= self.rows {
            return Err(GridError::IndexOutOfRange);
        }
        proof {
            lemma_flat_index(self.rows as int, self.cols as int, row as int, 0);
            lemma_flat_index(self.rows as int, self.cols as int, row as int, self.cols - 1);
        }
        let start: usize = row * self.cols;
        let mut out: Vec<Cell> = Vec::new();
        let mut col: usize = 0;
        while col < self.cols
            invariant
                self.wf(),
                row < self.rows,
                start == row * self.cols,
                start + self.cols <= self.cells@.len(),
                col <= self.cols,
                out@ == self.cells@.subrange(start as int, start + col),
            decreases self.cols - col,
        {
            out.push(self.cells[start + col]);
            col += 1;
            assert(out@ =~= self.cells@.subrange(start as int, start + col));
        }
        Ok(out)
    }

    /// Every row in order, each as its own sequence of cells.
    pub fn iter_rows(&self) -> (all: Vec<Vec<Cell>>)
        requires
            self.wf(),
        ensures
            all@.len() == self.rows(),
            forall|r: int|
                0 <= r < self.rows() ==> (#[trigger] all@[r])@ == self@.subrange(
                    r * self.cols(),
                    r * self.cols() + self.cols(),
                ),
    {
        let mut all: Vec<Vec<Cell>> = Vec::new();
        let mut r: usize = 0;
        while r < self.rows
            invariant
                self.wf(),
                r <= self.rows,
                all@.len() == r,
                forall|k: int|
                    0 <= k < r ==> (#[trigger] all@[k])@ == self@.subrange(
                        k * self.cols(),
                        k * self.cols() + self.cols(),
                    ),
            decreases self.rows - r,
        {
            match self.row(r) {
                Ok(cells) => {
                    all.push(cells);
                },
                Err(_) => {},
            }
            r += 1;
        }
        all
    }
}

} // verus!
