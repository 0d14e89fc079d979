//! Painting a grid as the text of one frame.
//!
//! A frame opens by erasing the screen. Then every logical row of the grid is
//! painted as `cell_height` physical rows: padding rows, the row that carries
//! the glyphs, and padding rows again. Every physical row starts by sending
//! the cursor to the grid's left edge on that row, and every cell sets its own
//! colours before its text and resets them after it.

use vstd::prelude::*;
use crate::cell::{Cell, BLANK};
use crate::escape::{
    background, background_text, clear, clear_text, foreground, foreground_text, goto, goto_text,
    reset, reset_text,
};
use crate::format::Format;
use crate::grid::{lemma_flat_index, Grid};
use crate::mapper::{lemma_within, CoordinateMapper, Layout};
use crate::pad::{after, before, filler, Pad};

verus! {

/// A glyph centered in `width` columns.
pub open spec fn centered(glyph: char, width: int) -> Seq<char> {
    filler(before(width, 1)) + seq![glyph] + filler(after(width, 1))
}

/// A glyph centered in `width` columns under the colours of a cell.
pub open spec fn styled(cell: Cell, glyph: char, width: int) -> Seq<char> {
    foreground_text(cell.foreground as nat) + background_text(cell.background as nat) + centered(
        glyph,
        width,
    ) + reset_text()
}

/// What a cell shows on a physical row: its glyph on the content row, a blank
/// on a padding row.
pub open spec fn shown(cell: Cell, content: bool) -> char {
    if content {
        cell.glyph
    } else {
        BLANK
    }
}

/// The cells of one logical row on one physical row, left to right.
pub open spec fn line_text(cells: Seq<Cell>, width: int, content: bool) -> Seq<char>
    decreases cells.len(),
{
    if cells.len() == 0 {
        Seq::empty()
    } else {
        line_text(cells.drop_last(), width, content) + styled(
            cells.last(),
            shown(cells.last(), content),
            width,
        )
    }
}

/// The cells of logical row `row` of a grid.
pub open spec fn row_cells(layout: Layout, cells: Seq<Cell>, row: int) -> Seq<Cell> {
    cells.subrange(row * layout.cols, row * layout.cols + layout.cols)
}

/// One physical row: the cursor goes to the grid's left edge on that row, then
/// the cells follow.
pub open spec fn physical_row(layout: Layout, cells: Seq<Cell>, row: int, line: int) -> Seq<char> {
    goto_text(
        layout.origin_col as nat,
        (layout.origin_row + row * layout.cell_height + line) as nat,
    ) + line_text(
        row_cells(layout, cells, row),
        layout.cell_width,
        line == before(layout.cell_height, 1),
    )
}

/// The first `lines` physical rows of logical row `row`.
pub open spec fn logical_row(layout: Layout, cells: Seq<Cell>, row: int, lines: int) -> Seq<char>
    decreases lines,
{
    if lines <= 0 {
        Seq::empty()
    } else {
        logical_row(layout, cells, row, lines - 1) + physical_row(layout, cells, row, lines - 1)
    }
}

/// The first `rows` logical rows of a grid.
pub open spec fn rows_text(layout: Layout, cells: Seq<Cell>, rows: int) -> Seq<char>
    decreases rows,
{
    if rows <= 0 {
        Seq::empty()
    } else {
        rows_text(layout, cells, rows - 1) + logical_row(
            layout,
            cells,
            rows - 1,
            layout.cell_height,
        )
    }
}

/// The text of a whole frame.
pub open spec fn frame(layout: Layout, cells: Seq<Cell>) -> Seq<char> {
    clear_text() + rows_text(layout, cells, layout.rows)
}

/// Appends a run of filler characters.
fn push_filler(out: &mut String, n: usize)
    ensures
        final(out)@ == old(out)@ + filler(n as int),
{
    let mut i: usize = 0;
    while i < n
        invariant
            i <= n,
            out@ == old(out)@ + filler(i as int),
        decreases n - i,
    {
        out.push(' ');
        i += 1;
        assert(out@ =~= old(out)@ + filler(i as int));
    }
    assert(out@ =~= old(out)@ + filler(n as int));
}

/// Appends a glyph centered in `width` columns under the colours of a cell.
fn push_styled(out: &mut String, cell: Cell, glyph: char, width: usize)
    requires
        width >= 1,
    ensures
        final(out)@ == old(out)@ + styled(cell, glyph, width as int),
{
    let pad = Pad::new(width);
    out.append(foreground(cell.foreground).as_str());
    out.append(background(cell.background).as_str());
    push_filler(out, pad.before);
    out.push(glyph);
    push_filler(out, pad.after);
    out.append(reset().as_str());
    assert(out@ =~= old(out)@ + styled(cell, glyph, width as int));
}

/// Appends the cells of one logical row as one physical row.
fn push_line(out: &mut String, cells: &Vec<Cell>, width: usize, content: bool)
    requires
        width >= 1,
    ensures
        final(out)@ == old(out)@ + line_text(cells@, width as int, content),
{
    let mut i: usize = 0;
    while i < cells.len()
        invariant
            width >= 1,
            i <= cells.len(),
            out@ == old(out)@ + line_text(cells@.take(i as int), width as int, content),
        decreases cells.len() - i,
    {
        let cell = cells[i];
        let glyph = if content {
            cell.glyph
        } else {
            BLANK
        };
        push_styled(out, cell, glyph, width);
        i += 1;
        proof {
            assert(cells@.take(i as int).drop_last() =~= cells@.take(i - 1));
            assert(cells@.take(i as int).last() == cell);
            assert(out@ =~= old(out)@ + line_text(cells@.take(i as int), width as int, content));
        }
    }
    assert(cells@.take(cells@.len() as int) =~= cells@);
}

/// Paints a grid where a layout places it.
pub fn render_at(grid: &Grid, place: &CoordinateMapper) -> (out: String)
    requires
        grid.wf(),
        grid.rows() == place@.rows,
        grid.cols() == place@.cols,
    ensures
        out@ == frame(place@, grid@),
{
    let rows = place.rows();
    let width = place.cell_width();
    let height = place.cell_height();
    let left = place.origin_col();
    let top = place.origin_row();
    let content_line = Pad::new(height).before;
    let mut out = clear();
    let mut row: usize = 0;
    while row < rows
        invariant
            grid.wf(),
            place@.wf(),
            grid.rows() == place@.rows,
            grid.cols() == place@.cols,
            rows == place@.rows,
            width == place@.cell_width,
            height == place@.cell_height,
            left == place@.origin_col,
            top == place@.origin_row,
            content_line == before(height as int, 1),
            row <= rows,
            out@ == clear_text() + rows_text(place@, grid@, row as int),
        decreases rows - row,
    {
        let cells = match grid.row(row) {
            Ok(cells) => cells,
            Err(_) => Vec::new(),
        };
        let ghost start = out@;
        let mut line: usize = 0;
        while line < height
            invariant
                place@.wf(),
                rows == place@.rows,
                width == place@.cell_width,
                height == place@.cell_height,
                left == place@.origin_col,
                top == place@.origin_row,
                content_line == before(height as int, 1),
                row < rows,
                line <= height,
                cells@ == row_cells(place@, grid@, row as int),
                out@ == start + logical_row(place@, grid@, row as int, line as int),
            decreases height - line,
        {
            proof {
                lemma_within(height as int, rows as int, row as int, line as int);
            }
            let y: usize = top as usize + row * height + line;
            out.append(goto(left, y as u16).as_str());
            push_line(&mut out, &cells, width, line == content_line);
            line += 1;
            assert(out@ =~= start + logical_row(place@, grid@, row as int, line as int));
        }
        row += 1;
        assert(out@ =~= clear_text() + rows_text(place@, grid@, row as int));
    }
    out
}

/// Paints a grid from the top left corner of the screen, or nothing when the
/// grid under this format does not fit on a screen of 16-bit coordinates.
pub fn render(grid: &Grid, format: &Format) -> (out: Option<String>)
    requires
        grid.wf(),
    ensures
        out.is_some() <==> home_layout(grid, *format).wf(),
        out.is_some() ==> out.unwrap()@ == frame(home_layout(grid, *format), grid@),
{
    match CoordinateMapper::new(*format, grid.rows(), grid.cols(), 1, 1) {
        Some(place) => Some(render_at(grid, &place)),
        None => None,
    }
}

/// The layout of a grid painted from the top left corner of the screen.
pub open spec fn home_layout(grid: &Grid, format: Format) -> Layout {
    Layout {
        cell_width: format.cell_width() as int,
        cell_height: format.cell_height() as int,
        cols: grid.cols() as int,
        rows: grid.rows() as int,
        origin_col: 1,
        origin_row: 1,
    }
}

} // verus!
