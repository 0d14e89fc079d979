//! A game of chess on the terminal: the position, the painted board and the
//! selection, and what each input event does to them.

use vstd::prelude::*;
use crate::cell::{Cell, BLANK};
use crate::display::{
    board_layout, board_to_display, click_to_square, clicked_square, color_of_piece,
    display_cells, display_index, display_square, glyph_on, index_square, piece_on_square,
    square_index, CELL_HEIGHT, CELL_WIDTH, NUM_RANKS,
};
use crate::format::Format;
use crate::grid::Grid;
use crate::mapper::CoordinateMapper;
use crate::render::{frame, render_at};
use crate::rules::{Position, Square};
use crate::selection::{
    next_cells, next_state, outcome, Pressed, Selection, SelectionController,
};

verus! {

/// The key that ends the game.
pub const QUIT: char = 'q';

/// An input event from the terminal. Pointer positions count from 1.
#[derive(Clone, Copy, Debug, PartialEq, Eq, Structural)]
pub enum Event {
    Key(char),
    Press(u16, u16),
    Other,
}

/// What the event loop does after an event.
#[derive(Clone, Copy, Debug, PartialEq, Eq, Structural)]
pub enum Action {
    Quit,
    Repaint,
    Wait,
}

/// The position, the cells of the painted board and the selection.
pub struct GameState {
    pub position: Position,
    pub cells: Seq<Cell>,
    pub selection: Selection,
}

/// The cells with the glyphs of a position; colours stay.
pub open spec fn refreshed(cells: Seq<Cell>, position: Position) -> Seq<Cell> {
    Seq::new(cells.len(), |i: int| cells[i].holding(glyph_on(position, display_square(i))))
}

impl GameState {
    /// The board has its 64 cells, each shows what the position holds on its
    /// square, and a selected index is one of them.
    pub open spec fn wf(self) -> bool {
        &&& self.cells.len() == 64
        &&& forall|i: int|
            0 <= i < 64 ==> (#[trigger] self.cells[i]).glyph == glyph_on(
                self.position,
                display_square(i),
            )
        &&& match self.selection {
            Selection::Idle => true,
            Selection::Selected { index, .. } => index < 64,
        }
    }

    /// The state once the rules have answered a proposed move: the position
    /// they gave, with its glyphs on the board, or no change when they
    /// refused.
    pub open spec fn settled(self, answer: Option<Position>) -> GameState {
        match answer {
            Some(next) => GameState {
                position: next,
                cells: refreshed(self.cells, next),
                selection: self.selection,
            },
            None => self,
        }
    }

    /// The state after the press itself, before any move is made.
    pub open spec fn pressed(self, index: usize) -> GameState {
        GameState {
            position: self.position,
            cells: next_cells(self.selection, self.cells, index),
            selection: next_state(self.selection, self.cells, index),
        }
    }

    /// What the rules answer to the move from the square painted at `from`
    /// to the square painted at `to`.
    pub open spec fn answer(self, from: usize, to: usize) -> Option<Position> {
        self.position.after(display_square(from as int), display_square(to as int))
    }

    /// The state after a press on the cell at `index`: a press that names an
    /// action makes the move if the rules allow it.
    pub open spec fn chosen(self, index: usize) -> GameState {
        match outcome(self.selection, self.cells, index) {
            Pressed::Act { from, to } => self.pressed(index).settled(self.answer(from, to)),
            _ => self.pressed(index),
        }
    }

    /// The state after a click at a screen position: a click off the board
    /// changes nothing.
    pub open spec fn clicked(self, screen_col: int, screen_row: int) -> GameState {
        match clicked_square(screen_col, screen_row) {
            Some(square) => self.chosen(display_index(square) as usize),
            None => self,
        }
    }

    /// Whether a click at a screen position calls for a repaint: every click
    /// on the board does, but for one on an empty square while nothing is
    /// selected.
    pub open spec fn repaints(self, screen_col: int, screen_row: int) -> bool {
        match clicked_square(screen_col, screen_row) {
            Some(square) => outcome(self.selection, self.cells, display_index(square) as usize)
                != Pressed::Ignored,
            None => false,
        }
    }
}

/// Clicking a piece while nothing is selected, and clicking it again, leaves
/// the game as it was: nothing selected, and every cell, the background of
/// the clicked one included, as before.
pub proof fn lemma_click_twice(state: GameState, screen_col: int, screen_row: int)
    requires
        state.wf(),
        state.selection == Selection::Idle,
        clicked_square(screen_col, screen_row).is_some(),
        !state.cells[display_index(clicked_square(screen_col, screen_row).unwrap())].empty(),
    ensures
        state.clicked(screen_col, screen_row).selection is Selected,
        state.clicked(screen_col, screen_row).clicked(screen_col, screen_row) == state,
{
    let square = clicked_square(screen_col, screen_row).unwrap();
    Square::lemma_at(
        (7 - (screen_row - 1) / (CELL_HEIGHT as int)) as u8,
        ((screen_col - 1) / (CELL_WIDTH as int)) as u8,
    );
    let index = display_index(square) as usize;
    let once = state.clicked(screen_col, screen_row);
    let twice = once.clicked(screen_col, screen_row);
    assert(twice.cells =~= state.cells);
}

/// A click off the board never changes anything and never calls for a
/// repaint, whatever is selected.
pub proof fn lemma_click_off_board(state: GameState, screen_col: int, screen_row: int)
    requires
        clicked_square(screen_col, screen_row).is_none(),
    ensures
        state.clicked(screen_col, screen_row) == state,
        !state.repaints(screen_col, screen_row),
{
}

/// A click on the board while a cell is selected always ends the selection
/// and gives the selected cell its saved background back; no other
/// background changes. The position is the one after the move from the
/// selected square to the clicked one if that is another square and the rules
/// allow the move, and the position as it was otherwise. Either way every
/// cell shows what the position then holds on its square, as a board freshly
/// made from that position does.
pub proof fn lemma_second_click(
    state: GameState,
    prev: usize,
    saved: u8,
    screen_col: int,
    screen_row: int,
)
    requires
        state.wf(),
        state.selection == (Selection::Selected { index: prev, saved_background: saved }),
        clicked_square(screen_col, screen_row).is_some(),
    ensures
        ({
            let target = clicked_square(screen_col, screen_row).unwrap();
            let source = display_square(prev as int);
            let then = state.clicked(screen_col, screen_row);
            &&& then.selection == Selection::Idle
            &&& then.position == if display_index(target) != prev && state.position.allows(
                source,
                target,
            ) {
                state.position.after(source, target).unwrap()
            } else {
                state.position
            }
            &&& then.cells.len() == 64
            &&& then.cells[prev as int].background == saved
            &&& forall|k: int|
                0 <= k < 64 && k != prev ==> (#[trigger] then.cells[k]).background
                    == state.cells[k].background
            &&& forall|k: int|
                0 <= k < 64 ==> (#[trigger] then.cells[k]).glyph == display_cells(
                    then.position,
                    None,
                )[k].glyph
        }),
{
    Square::lemma_at(
        (7 - (screen_row - 1) / (CELL_HEIGHT as int)) as u8,
        ((screen_col - 1) / (CELL_WIDTH as int)) as u8,
    );
    let target = clicked_square(screen_col, screen_row).unwrap();
    assert(display_square(display_index(target)) == target);
}

/// Where the position after an allowed move holds on the clicked square what
/// stood on the selected one, and nothing on the selected one, the board
/// shows just that: the glyph of the selected cell is now in the clicked
/// cell, the selected cell is blank, and nothing is selected.
pub proof fn lemma_move_carries_content(
    state: GameState,
    prev: usize,
    saved: u8,
    screen_col: int,
    screen_row: int,
)
    requires
        state.wf(),
        state.selection == (Selection::Selected { index: prev, saved_background: saved }),
        clicked_square(screen_col, screen_row).is_some(),
        display_index(clicked_square(screen_col, screen_row).unwrap()) != prev,
        state.position.allows(
            display_square(prev as int),
            clicked_square(screen_col, screen_row).unwrap(),
        ),
        ({
            let target = clicked_square(screen_col, screen_row).unwrap();
            let source = display_square(prev as int);
            let next = state.position.after(source, target).unwrap();
            &&& glyph_on(next, target) == glyph_on(state.position, source)
            &&& glyph_on(next, source) == BLANK
        }),
    ensures
        ({
            let target = clicked_square(screen_col, screen_row).unwrap();
            let then = state.clicked(screen_col, screen_row);
            &&& then.selection == Selection::Idle
            &&& then.cells[display_index(target)].glyph == state.cells[prev as int].glyph
            &&& then.cells[prev as int].glyph == BLANK
            &&& display_cells(then.position, None)[display_index(target)].glyph == display_cells(
                state.position,
                None,
            )[prev as int].glyph
            &&& display_cells(then.position, None)[prev as int].glyph == BLANK
        }),
{
    lemma_second_click(state, prev, saved, screen_col, screen_row);
    Square::lemma_at(
        (7 - (screen_row - 1) / (CELL_HEIGHT as int)) as u8,
        ((screen_col - 1) / (CELL_WIDTH as int)) as u8,
    );
    let target = clicked_square(screen_col, screen_row).unwrap();
    assert(display_square(display_index(target)) == target);
}

/// Every click leaves a well-formed game well-formed: the board keeps its 64
/// cells and shows the position, and a click changes no foreground.
pub proof fn lemma_click_keeps_wf(state: GameState, screen_col: int, screen_row: int)
    requires
        state.wf(),
    ensures
        state.clicked(screen_col, screen_row).wf(),
        forall|i: int|
            0 <= i < 64 ==> (#[trigger] state.clicked(screen_col, screen_row).cells[i]).foreground
                == state.cells[i].foreground,
{
    if clicked_square(screen_col, screen_row).is_some() {
        Square::lemma_at(
            (7 - (screen_row - 1) / (CELL_HEIGHT as int)) as u8,
            ((screen_col - 1) / (CELL_WIDTH as int)) as u8,
        );
    }
}

/// A game in progress.
#[derive(Clone, Debug)]
pub struct Game {
    position: Position,
    grid: Grid,
    controller: SelectionController,
}

impl View for Game {
    type V = GameState;

    closed spec fn view(&self) -> GameState {
        GameState { position: self.position, cells: self.grid@, selection: self.controller@ }
    }
}

impl Game {
    /// The painted board is a well-formed grid of eight by eight cells that
    /// shows the position.
    pub closed spec fn wf(&self) -> bool {
        &&& self.grid.wf()
        &&& self.grid.rows() == 8
        &&& self.grid.cols() == 8
        &&& self@.wf()
    }

    /// The state of a well-formed game is well-formed, so what is proved of
    /// well-formed states holds of it.
    pub proof fn lemma_wf(&self)
        ensures
            self.wf() ==> self@.wf(),
    {
    }

    /// A game at a position, with nothing selected.
    pub fn new(position: Position) -> (game: Game)
        ensures
            game.wf(),
            game@ == (GameState {
                position,
                cells: display_cells(position, None),
                selection: Selection::Idle,
            }),
    {
        let grid = board_to_display(position, &None);
        Game { position, grid, controller: SelectionController::new() }
    }

    /// The position on the board.
    pub fn position(&self) -> (position: Position)
        ensures
            position == self@.position,
    {
        self.position
    }

    /// The painted board.
    pub fn grid(&self) -> (grid: &Grid)
        ensures
            grid@ == self@.cells,
            self.wf() ==> grid.wf() && grid.rows() == 8 && grid.cols() == 8,
    {
        &self.grid
    }

    /// The selection.
    pub fn selection(&self) -> (selection: Selection)
        ensures
            selection == self@.selection,
    {
        self.controller.state()
    }

    /// Takes the answer of the rules to a proposed move.
    pub fn settle(&mut self, answer: Option<Position>)
        requires
            old(self).wf(),
        ensures
            final(self).wf(),
            final(self)@ == old(self)@.settled(answer),
    {
        match answer {
            Some(next) => {
                let mut index: usize = 0;
                while index < NUM_RANKS * NUM_RANKS
                    invariant
                        index <= 64,
                        self.grid.wf(),
                        self.grid.rows() == 8,
                        self.grid.cols() == 8,
                        self.grid@.len() == 64,
                        self.controller == old(self).controller,
                        forall|i: int|
                            0 <= i < index ==> #[trigger] self.grid@[i] == old(self).grid@[i].holding(
                                glyph_on(next, display_square(i)),
                            ),
                        forall|i: int| index <= i < 64 ==> #[trigger] self.grid@[i] == old(self).grid@[i],
                    decreases 64 - index,
                {
                    match index_square(index) {
                        Some(square) => {
                            let glyph = piece_on_square(next, square, color_of_piece(next, square));
                            let _ = self.grid.set_glyph_at(index, glyph);
                        },
                        None => {},
                    }
                    index += 1;
                }
                self.position = next;
                assert(self.grid@ =~= refreshed(old(self).grid@, next));
            },
            None => {},
        }
    }

    /// Takes a press on a square of the board, and says whether the board
    /// must be painted again.
    pub fn press(&mut self, square: Square) -> (repaint: bool)
        requires
            old(self).wf(),
        ensures
            final(self).wf(),
            final(self)@ == old(self)@.chosen(display_index(square) as usize),
            repaint == (outcome(
                old(self)@.selection,
                old(self)@.cells,
                display_index(square) as usize,
            ) != Pressed::Ignored),
    {
        let index = square_index(square);
        match self.controller.press(&mut self.grid, index) {
            Pressed::Ignored => false,
            Pressed::Chosen => true,
            Pressed::Released => true,
            Pressed::Act { from, to } => {
                match index_square(from) {
                    Some(source) => {
                        let answer = self.position.play(source, square);
                        self.settle(answer);
                    },
                    None => {},
                }
                true
            },
        }
    }

    /// Takes a click at a screen position, and says whether the board must
    /// be painted again.
    pub fn click(&mut self, click: (u16, u16)) -> (repaint: bool)
        requires
            old(self).wf(),
        ensures
            final(self).wf(),
            final(self)@ == old(self)@.clicked(click.0 as int, click.1 as int),
            repaint == old(self)@.repaints(click.0 as int, click.1 as int),
    {
        match click_to_square(click) {
            Some(square) => self.press(square),
            None => false,
        }
    }

    /// Takes an input event: the quit key ends the game, a press is a click,
    /// and anything else is passed over.
    pub fn handle(&mut self, event: Event) -> (action: Action)
        requires
            old(self).wf(),
        ensures
            final(self).wf(),
            final(self)@ == match event {
                Event::Press(col, row) => old(self)@.clicked(col as int, row as int),
                _ => old(self)@,
            },
            action == match event {
                Event::Key(key) => if key == QUIT {
                    Action::Quit
                } else {
                    Action::Wait
                },
                Event::Press(col, row) => if old(self)@.repaints(col as int, row as int) {
                    Action::Repaint
                } else {
                    Action::Wait
                },
                Event::Other => Action::Wait,
            },
    {
        match event {
            Event::Key(key) => {
                if key == QUIT {
                    Action::Quit
                } else {
                    Action::Wait
                }
            },
            Event::Press(col, row) => {
                if self.click((col, row)) {
                    Action::Repaint
                } else {
                    Action::Wait
                }
            },
            Event::Other => Action::Wait,
        }
    }

    /// The frame that paints the board.
    pub fn draw(&self) -> (out: String)
        requires
            self.wf(),
        ensures
            out@ == frame(board_layout(), self@.cells),
    {
        match Format::new(CELL_WIDTH, CELL_HEIGHT) {
            Some(format) => match CoordinateMapper::new(format, NUM_RANKS, NUM_RANKS, 1, 1) {
                Some(place) => render_at(&self.grid, &place),
                None => unreached(),
            },
            None => unreached(),
        }
    }
}

} // verus!
