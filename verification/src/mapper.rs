//! From a screen position to the cell painted there, and back.

use vstd::prelude::*;
use vstd::arithmetic::div_mod::{lemma_fundamental_div_mod, lemma_fundamental_div_mod_converse};
use crate::format::Format;
use crate::pad::{before, Pad};

verus! {

/// Why a screen position or a grid coordinate was refused.
#[derive(Clone, Copy, Debug, PartialEq, Eq, Structural)]
pub enum MapError {
    OutOfBounds,
}

/// Where a grid lies on the screen: the size of its cells, its shape, and the
/// screen position of its top left corner. Screen positions count from 1.
pub struct Layout {
    pub cell_width: int,
    pub cell_height: int,
    pub cols: int,
    pub rows: int,
    pub origin_col: int,
    pub origin_row: int,
}

impl Layout {
    /// Cells and shape are not degenerate, the origin is a screen position,
    /// and the whole grid lies on a screen of 16-bit coordinates.
    pub open spec fn wf(self) -> bool {
        &&& self.cell_width >= 1
        &&& self.cell_height >= 1
        &&& self.cols >= 1
        &&& self.rows >= 1
        &&& self.origin_col >= 1
        &&& self.origin_row >= 1
        &&& self.origin_col + self.cols * self.cell_width <= 0x1_0000
        &&& self.origin_row + self.rows * self.cell_height <= 0x1_0000
    }

    /// Whether a screen position lies on the grid.
    pub open spec fn covers(self, screen_col: int, screen_row: int) -> bool {
        &&& self.origin_col <= screen_col < self.origin_col + self.cols * self.cell_width
        &&& self.origin_row <= screen_row < self.origin_row + self.rows * self.cell_height
    }

    /// Whether a grid coordinate names a cell.
    pub open spec fn holds(self, col: int, row: int) -> bool {
        0 <= col < self.cols && 0 <= row < self.rows
    }

    /// The cell painted at a screen position: the position relative to the
    /// origin, divided by the size of a cell.
    pub open spec fn to_index(self, screen_col: int, screen_row: int) -> Result<
        (int, int),
        MapError,
    > {
        if self.covers(screen_col, screen_row) {
            Ok(
                (
                    (screen_col - self.origin_col) / self.cell_width,
                    (screen_row - self.origin_row) / self.cell_height,
                ),
            )
        } else {
            Err(MapError::OutOfBounds)
        }
    }

    /// The screen position at the left end of the row that carries a cell's
    /// glyph.
    pub open spec fn to_screen(self, col: int, row: int) -> Result<(int, int), MapError> {
        if self.holds(col, row) {
            Ok(
                (
                    self.origin_col + col * self.cell_width,
                    self.origin_row + row * self.cell_height + before(self.cell_height, 1),
                ),
            )
        } else {
            Err(MapError::OutOfBounds)
        }
    }

    /// Every screen position inside the footprint of a cell lies on the grid
    /// and maps to that cell.
    pub proof fn lemma_footprint(self, col: int, row: int, dx: int, dy: int)
        requires
            self.wf(),
            self.holds(col, row),
            0 <= dx < self.cell_width,
            0 <= dy < self.cell_height,
        ensures
            self.to_index(
                self.origin_col + col * self.cell_width + dx,
                self.origin_row + row * self.cell_height + dy,
            ) == Ok::<(int, int), MapError>((col, row)),
    {
        lemma_within(self.cell_width, self.cols, col, dx);
        lemma_within(self.cell_height, self.rows, row, dy);
    }

    /// Mapping a cell to the screen and back gives the cell again.
    pub proof fn lemma_round_trip(self, col: int, row: int)
        requires
            self.wf(),
            self.holds(col, row),
        ensures
            self.to_screen(col, row).is_ok(),
            self.to_index(self.to_screen(col, row).unwrap().0, self.to_screen(col, row).unwrap().1)
                == Ok::<(int, int), MapError>((col, row)),
    {
        self.lemma_footprint(col, row, 0, before(self.cell_height, 1));
    }

    /// A position on the grid maps to a cell of the grid, and lies inside that
    /// cell's footprint.
    pub proof fn lemma_to_index_holds(self, screen_col: int, screen_row: int)
        requires
            self.wf(),
            self.covers(screen_col, screen_row),
        ensures
            self.holds(
                self.to_index(screen_col, screen_row).unwrap().0,
                self.to_index(screen_col, screen_row).unwrap().1,
            ),
    {
        lemma_cell_of(self.cell_width, self.cols, screen_col - self.origin_col);
        lemma_cell_of(self.cell_height, self.rows, screen_row - self.origin_row);
    }
}

/// The offset `d` into cell `k` of `n` cells of size `size` lies below
/// `n * size` and is divided back to `k`.
pub proof fn lemma_within(size: int, n: int, k: int, d: int)
    requires
        size >= 1,
        0 <= k < n,
        0 <= d < size,
    ensures
        0 <= k * size + d < n * size,
        (k * size + d) / size == k,
        (k * size + d) % size == d,
{
    assert(k * size + d < n * size) by (nonlinear_arith)
        requires
            0 <= k < n,
            0 <= d < size,
    ;
    assert(k * size >= 0) by (nonlinear_arith)
        requires
            0 <= k,
            0 < size,
    ;
    lemma_fundamental_div_mod_converse(k * size + d, size, k, d);
}

/// An offset below `n * size` falls into one of the `n` cells.
pub proof fn lemma_cell_of(size: int, n: int, offset: int)
    requires
        size >= 1,
        0 <= offset < n * size,
    ensures
        0 <= offset / size < n,
        offset == (offset / size) * size + offset % size,
        0 <= offset % size < size,
{
    lemma_fundamental_div_mod(offset, size);
    assert(size * (offset / size) == (offset / size) * size) by (nonlinear_arith);
    assert(0 <= offset / size < n) by (nonlinear_arith)
        requires
            0 <= offset < n * size,
            size >= 1,
            offset == (offset / size) * size + offset % size,
            0 <= offset % size < size,
    ;
}

/// Maps between screen positions and the cells of a grid laid out on the
/// screen.
#[derive(Clone, Copy, Debug)]
pub struct CoordinateMapper {
    cell_width: usize,
    cell_height: usize,
    cols: usize,
    rows: usize,
    origin_col: u16,
    origin_row: u16,
}

impl View for CoordinateMapper {
    type V = Layout;

    closed spec fn view(&self) -> Layout {
        Layout {
            cell_width: self.cell_width as int,
            cell_height: self.cell_height as int,
            cols: self.cols as int,
            rows: self.rows as int,
            origin_col: self.origin_col as int,
            origin_row: self.origin_row as int,
        }
    }
}

impl CoordinateMapper {
    #[verifier::type_invariant]
    spec fn inv(self) -> bool {
        self@.wf()
    }

    /// A mapper for a grid of the given shape whose top left corner is painted
    /// at the given screen position, or nothing when the layout is degenerate
    /// or does not fit on a screen of 16-bit coordinates.
    pub fn new(format: Format, rows: usize, cols: usize, origin_col: u16, origin_row: u16) -> (mapper:
        Option<CoordinateMapper>)
        ensures
            mapper.is_some() <==> (Layout {
                cell_width: format.cell_width() as int,
                cell_height: format.cell_height() as int,
                cols: cols as int,
                rows: rows as int,
                origin_col: origin_col as int,
                origin_row: origin_row as int,
            }).wf(),
            mapper.is_some() ==> mapper.unwrap()@ == (Layout {
                cell_width: format.cell_width() as int,
                cell_height: format.cell_height() as int,
                cols: cols as int,
                rows: rows as int,
                origin_col: origin_col as int,
                origin_row: origin_row as int,
            }),
    {
        let cell_width = format.cell_width();
        let cell_height = format.cell_height();
        if cell_width == 0 || cell_height == 0 || rows == 0 || cols == 0 || origin_col == 0
            || origin_row == 0 {
            return None;
        }
        if !fits(cell_width, cols, origin_col) || !fits(cell_height, rows, origin_row) {
            return None;
        }
        Some(CoordinateMapper { cell_width, cell_height, cols, rows, origin_col, origin_row })
    }

    /// Character columns per cell.
    pub fn cell_width(&self) -> (n: usize)
        ensures
            n == self@.cell_width,
            self@.wf(),
    {
        proof {
            use_type_invariant(self);
        }
        self.cell_width
    }

    /// Character rows per cell.
    pub fn cell_height(&self) -> (n: usize)
        ensures
            n == self@.cell_height,
            self@.wf(),
    {
        proof {
            use_type_invariant(self);
        }
        self.cell_height
    }

    /// Columns of the grid.
    pub fn cols(&self) -> (n: usize)
        ensures
            n == self@.cols,
            self@.wf(),
    {
        proof {
            use_type_invariant(self);
        }
        self.cols
    }

    /// Rows of the grid.
    pub fn rows(&self) -> (n: usize)
        ensures
            n == self@.rows,
            self@.wf(),
    {
        proof {
            use_type_invariant(self);
        }
        self.rows
    }

    /// The screen column of the grid's left edge.
    pub fn origin_col(&self) -> (n: u16)
        ensures
            n == self@.origin_col,
            self@.wf(),
    {
        proof {
            use_type_invariant(self);
        }
        self.origin_col
    }

    /// The screen row of the grid's top edge.
    pub fn origin_row(&self) -> (n: u16)
        ensures
            n == self@.origin_row,
            self@.wf(),
    {
        proof {
            use_type_invariant(self);
        }
        self.origin_row
    }

    /// The cell painted at a screen position, as `(column, row)`.
    pub fn to_index(&self, screen_col: u16, screen_row: u16) -> (cell: Result<
        (usize, usize),
        MapError,
    >)
        ensures
            self@.wf(),
            cell.is_ok() <==> self@.covers(screen_col as int, screen_row as int),
            cell.is_ok() ==> self@.to_index(screen_col as int, screen_row as int) == Ok::<
                (int, int),
                MapError,
            >((cell.unwrap().0 as int, cell.unwrap().1 as int)),
            cell.is_ok() ==> self@.holds(cell.unwrap().0 as int, cell.unwrap().1 as int),
            cell.is_err() ==> cell.unwrap_err() == MapError::OutOfBounds,
    {
        proof {
            use_type_invariant(self);
        }
        if screen_col < self.origin_col || screen_row < self.origin_row {
            return Err(MapError::OutOfBounds);
        }
        let dx: usize = (screen_col - self.origin_col) as usize;
        let dy: usize = (screen_row - self.origin_row) as usize;
        if dx >= self.cols * self.cell_width || dy >= self.rows * self.cell_height {
            return Err(MapError::OutOfBounds);
        }
        proof {
            self@.lemma_to_index_holds(screen_col as int, screen_row as int);
        }
        Ok((dx / self.cell_width, dy / self.cell_height))
    }

    /// The screen position at the left end of the row that carries the glyph
    /// of the cell at `(col, row)`.
    pub fn to_screen(&self, col: usize, row: usize) -> (at: Result<(u16, u16), MapError>)
        ensures
            self@.wf(),
            at.is_ok() <==> self@.holds(col as int, row as int),
            at.is_ok() ==> self@.to_screen(col as int, row as int) == Ok::<(int, int), MapError>(
                (at.unwrap().0 as int, at.unwrap().1 as int),
            ),
            at.is_err() ==> at.unwrap_err() == MapError::OutOfBounds,
    {
        proof {
            use_type_invariant(self);
        }
        if col >= self.cols || row >= self.rows {
            return Err(MapError::OutOfBounds);
        }
        let pad = Pad::new(self.cell_height);
        proof {
            lemma_within(self.cell_width as int, self.cols as int, col as int, 0);
            lemma_within(
                self.cell_height as int,
                self.rows as int,
                row as int,
                pad.before as int,
            );
        }
        let x: usize = self.origin_col as usize + col * self.cell_width;
        let y: usize = self.origin_row as usize + row * self.cell_height + pad.before;
        Ok((x as u16, y as u16))
    }
}

/// Whether `count` cells of `size` characters, starting at screen position
/// `origin`, end on a screen of 16-bit coordinates.
fn fits(size: usize, count: usize, origin: u16) -> (ok: bool)
    requires
        size >= 1,
        count >= 1,
        origin >= 1,
    ensures
        ok <==> origin + count * size <= 0x1_0000,
{
    assert(count * size >= count && count * size >= size) by (nonlinear_arith)
        requires
            size >= 1,
            count >= 1,
    ;
    if size > 0xffff || count > 0xffff {
        return false;
    }
    assert(count * size <= 0xffff * 0xffff) by (nonlinear_arith)
        requires
            size <= 0xffff,
            count <= 0xffff,
    ;
    let span: u64 = (count as u64) * (size as u64);
    span + (origin as u64) <= 0x1_0000
}

} // verus!
