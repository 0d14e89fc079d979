//! The two-step "select, then act" interaction with a grid.
//!
//! A first press on a cell that holds something selects it and paints it with
//! the highlight colour. The second press always takes the highlight away
//! again; on another cell it also names an action from the selected cell to
//! the pressed one, which the caller puts to the rules of its game.

use vstd::prelude::*;
use crate::cell::Cell;
use crate::grid::Grid;

verus! {

/// The background of a selected cell.
pub const HIGHLIGHT: u8 = 23;

/// Whether a cell is selected, and which; a selection remembers the
/// background that the highlight replaced.
#[derive(Clone, Copy, Debug, PartialEq, Eq, Structural)]
pub enum Selection {
    Idle,
    Selected { index: usize, saved_background: u8 },
}

/// What a press came to.
#[derive(Clone, Copy, Debug, PartialEq, Eq, Structural)]
pub enum Pressed {
    /// Nothing was selected and the pressed cell holds nothing, or is no
    /// cell: nothing changed.
    Ignored,
    /// The pressed cell is now selected and highlighted.
    Chosen,
    /// The selection was given up: the selected cell was pressed again, or
    /// the target is no cell.
    Released,
    /// The selection was given up for an action from the cell that was
    /// selected to the pressed one.
    Act { from: usize, to: usize },
}

/// Whether a press can select the cell at `index`.
pub open spec fn selectable(cells: Seq<Cell>, index: int) -> bool {
    0 <= index < cells.len() && !cells[index].empty()
}

/// The cells with the cell at `index` on another background.
pub open spec fn repainted(cells: Seq<Cell>, index: int, background: u8) -> Seq<Cell> {
    if 0 <= index < cells.len() {
        cells.update(index, cells[index].on(background))
    } else {
        cells
    }
}

/// The cells once the highlight of a selection is taken away.
pub open spec fn restored(state: Selection, cells: Seq<Cell>) -> Seq<Cell> {
    match state {
        Selection::Idle => cells,
        Selection::Selected { index, saved_background } => repainted(
            cells,
            index as int,
            saved_background,
        ),
    }
}

/// The state after a press on `index`.
pub open spec fn next_state(state: Selection, cells: Seq<Cell>, index: usize) -> Selection {
    match state {
        Selection::Idle => if selectable(cells, index as int) {
            Selection::Selected { index, saved_background: cells[index as int].background }
        } else {
            Selection::Idle
        },
        Selection::Selected { .. } => Selection::Idle,
    }
}

/// The cells after a press on `index`.
pub open spec fn next_cells(state: Selection, cells: Seq<Cell>, index: usize) -> Seq<Cell> {
    match state {
        Selection::Idle => if selectable(cells, index as int) {
            repainted(cells, index as int, HIGHLIGHT)
        } else {
            cells
        },
        Selection::Selected { .. } => restored(state, cells),
    }
}

/// What a press on `index` comes to.
pub open spec fn outcome(state: Selection, cells: Seq<Cell>, index: usize) -> Pressed {
    match state {
        Selection::Idle => if selectable(cells, index as int) {
            Pressed::Chosen
        } else {
            Pressed::Ignored
        },
        Selection::Selected { index: from, .. } => if index == from || index >= cells.len() {
            Pressed::Released
        } else {
            Pressed::Act { from, to: index }
        },
    }
}

/// The interaction state machine. It starts idle and never stops.
#[derive(Clone, Copy, Debug)]
pub struct SelectionController {
    state: Selection,
}

impl View for SelectionController {
    type V = Selection;

    closed spec fn view(&self) -> Selection {
        self.state
    }
}

impl SelectionController {
    /// A controller with nothing selected.
    pub fn new() -> (controller: SelectionController)
        ensures
            controller@ == Selection::Idle,
    {
        SelectionController { state: Selection::Idle }
    }

    /// The current state.
    pub fn state(&self) -> (state: Selection)
        ensures
            state == self@,
    {
        self.state
    }

    /// The selected index, if there is one.
    pub fn selected(&self) -> (index: Option<usize>)
        ensures
            index == match self@ {
                Selection::Idle => None::<usize>,
                Selection::Selected { index, .. } => Some(index),
            },
    {
        match self.state {
            Selection::Idle => None,
            Selection::Selected { index, .. } => Some(index),
        }
    }

    /// Takes a press on the cell at `index`: the state, the cells and the
    /// answer are those of the transition from the current state. Only
    /// backgrounds change, and the grid keeps its shape.
    pub fn press(&mut self, grid: &mut Grid, index: usize) -> (pressed: Pressed)
        ensures
            final(self)@ == next_state(old(self)@, old(grid)@, index),
            final(grid)@ == next_cells(old(self)@, old(grid)@, index),
            pressed == outcome(old(self)@, old(grid)@, index),
            final(grid).wf() == old(grid).wf(),
            final(grid).rows() == old(grid).rows(),
            final(grid).cols() == old(grid).cols(),
    {
        match self.state {
            Selection::Idle => {
                match grid.cell(index) {
                    Ok(cell) => {
                        if cell.is_empty() {
                            Pressed::Ignored
                        } else {
                            let _ = grid.set_background_at(index, HIGHLIGHT);
                            self.state =
                            Selection::Selected { index, saved_background: cell.background };
                            Pressed::Chosen
                        }
                    },
                    Err(_) => Pressed::Ignored,
                }
            },
            Selection::Selected { index: from, saved_background } => {
                let _ = grid.set_background_at(from, saved_background);
                self.state = Selection::Idle;
                if index == from || index >= grid.len() {
                    Pressed::Released
                } else {
                    Pressed::Act { from, to: index }
                }
            },
        }
    }
}

/// Selecting a cell and pressing it again leaves nothing selected and every
/// cell as it was before, the background of the pressed cell included.
pub proof fn lemma_select_then_deselect(cells: Seq<Cell>, index: usize)
    requires
        selectable(cells, index as int),
    ensures
        next_state(Selection::Idle, cells, index) is Selected,
        outcome(Selection::Idle, cells, index) == Pressed::Chosen,
        ({
            let chosen = next_state(Selection::Idle, cells, index);
            let lit = next_cells(Selection::Idle, cells, index);
            &&& outcome(chosen, lit, index) == Pressed::Released
            &&& next_state(chosen, lit, index) == Selection::Idle
            &&& next_cells(chosen, lit, index) == cells
        }),
{
    let chosen = next_state(Selection::Idle, cells, index);
    let lit = next_cells(Selection::Idle, cells, index);
    assert(next_cells(chosen, lit, index) =~= cells);
}

/// A press changes nothing but backgrounds: every cell keeps its glyph and
/// its foreground, and there are as many cells as before.
pub proof fn lemma_press_keeps_content(state: Selection, cells: Seq<Cell>, index: usize)
    ensures
        next_cells(state, cells, index).len() == cells.len(),
        forall|i: int|
            0 <= i < cells.len() ==> {
                &&& (#[trigger] next_cells(state, cells, index)[i]).glyph == cells[i].glyph
                &&& next_cells(state, cells, index)[i].foreground == cells[i].foreground
            },
{
}

/// Selecting a cell changes the background of that cell and of no other.
pub proof fn lemma_select_paints_one(cells: Seq<Cell>, index: usize)
    requires
        selectable(cells, index as int),
    ensures
        next_cells(Selection::Idle, cells, index)[index as int] == cells[index as int].on(HIGHLIGHT),
        forall|i: int|
            0 <= i < cells.len() && i != index ==> #[trigger] next_cells(
                Selection::Idle,
                cells,
                index,
            )[i] == cells[i],
{
}

} // verus!
