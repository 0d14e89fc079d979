use term_grid::cell::Cell;
use term_grid::game::{Action, Event, Game};
use term_grid::grid::Grid;
use term_grid::rules::{initial_grid, Position};
use term_grid::selection::{Pressed, Selection, SelectionController, HIGHLIGHT};

fn cells_of(grid: &Grid) -> Vec<Cell> {
    (0..grid.len()).map(|i| grid.cell(i).unwrap()).collect()
}

fn small() -> Grid {
    let cells = vec![
        Cell::new('a', 1, 10),
        Cell::new(' ', 1, 11),
        Cell::new('c', 1, 12),
        Cell::new('d', 1, 13),
    ];
    Grid::new(2, 2, cells).unwrap()
}

#[test]
fn a_controller_starts_idle() {
    let controller = SelectionController::new();
    assert_eq!(controller.state(), Selection::Idle);
    assert_eq!(controller.selected(), None);
}

#[test]
fn pressing_an_empty_cell_while_idle_changes_nothing() {
    let mut grid = small();
    let before = cells_of(&grid);
    let mut controller = SelectionController::new();
    assert_eq!(controller.press(&mut grid, 1), Pressed::Ignored);
    assert_eq!(controller.state(), Selection::Idle);
    assert_eq!(cells_of(&grid), before);
    assert_eq!(controller.press(&mut grid, 4), Pressed::Ignored);
    assert_eq!(controller.state(), Selection::Idle);
    assert_eq!(cells_of(&grid), before);
}

#[test]
fn pressing_a_cell_selects_and_highlights_it() {
    let mut grid = small();
    let mut controller = SelectionController::new();
    assert_eq!(controller.press(&mut grid, 2), Pressed::Chosen);
    assert_eq!(controller.state(), Selection::Selected { index: 2, saved_background: 12 });
    assert_eq!(controller.selected(), Some(2));
    assert_eq!(grid.cell(2), Ok(Cell::new('c', 1, HIGHLIGHT)));
    assert_eq!(grid.cell(0), Ok(Cell::new('a', 1, 10)));
    assert_eq!(grid.cell(1), Ok(Cell::new(' ', 1, 11)));
    assert_eq!(grid.cell(3), Ok(Cell::new('d', 1, 13)));
}

#[test]
fn pressing_the_selected_cell_again_restores_it() {
    let mut grid = small();
    let before = cells_of(&grid);
    let mut controller = SelectionController::new();
    assert_eq!(controller.press(&mut grid, 3), Pressed::Chosen);
    assert_eq!(controller.press(&mut grid, 3), Pressed::Released);
    assert_eq!(controller.state(), Selection::Idle);
    assert_eq!(cells_of(&grid), before);
}

#[test]
fn pressing_another_cell_names_an_action() {
    let mut grid = small();
    let before = cells_of(&grid);
    let mut controller = SelectionController::new();
    assert_eq!(controller.press(&mut grid, 0), Pressed::Chosen);
    assert_eq!(controller.press(&mut grid, 1), Pressed::Act { from: 0, to: 1 });
    assert_eq!(controller.state(), Selection::Idle);
    assert_eq!(cells_of(&grid), before);
}

#[test]
fn pressing_no_cell_gives_the_selection_up() {
    let mut grid = small();
    let before = cells_of(&grid);
    let mut controller = SelectionController::new();
    assert_eq!(controller.press(&mut grid, 0), Pressed::Chosen);
    assert_eq!(controller.press(&mut grid, 9), Pressed::Released);
    assert_eq!(controller.state(), Selection::Idle);
    assert_eq!(cells_of(&grid), before);
}

#[test]
fn clicking_a_piece_selects_it_and_repaints_only_its_cell() {
    let mut game = Game::new(initial_grid());
    let before = cells_of(game.grid());
    assert_eq!(before[0].glyph, '♜');
    assert!(game.click((4, 2)));
    assert_eq!(
        game.selection(),
        Selection::Selected { index: 0, saved_background: before[0].background }
    );
    let after = cells_of(game.grid());
    assert_eq!(after[0], Cell::new('♜', 33, HIGHLIGHT));
    assert_eq!(after[1..], before[1..]);
}

#[test]
fn clicking_a_piece_twice_is_a_round_trip() {
    let mut game = Game::new(initial_grid());
    let before = cells_of(game.grid());
    assert!(game.click((1, 1)));
    assert!(game.click((7, 3)));
    assert_eq!(game.selection(), Selection::Idle);
    assert_eq!(cells_of(game.grid()), before);
}

#[test]
fn an_illegal_move_changes_nothing_and_deselects() {
    let mut game = Game::new(initial_grid());
    let before = cells_of(game.grid());
    assert!(game.click((1, 1)));
    assert_eq!(game.selection(), Selection::Selected { index: 0, saved_background: 7 });
    assert!(game.click((5 * 7 + 1, 1)));
    assert_eq!(game.selection(), Selection::Idle);
    let after = cells_of(game.grid());
    assert_eq!(after[0], before[0]);
    assert_eq!(after[5], before[5]);
    assert_eq!(after, before);
}

#[test]
fn a_legal_move_moves_the_content_and_deselects() {
    let position = Position::from_fen("b3k3/8/8/8/8/8/8/4K3 b - - 0 1").unwrap();
    let mut game = Game::new(position);
    let before = cells_of(game.grid());
    assert_eq!(before[0].glyph, '♝');
    assert_eq!(before[9].glyph, ' ');
    assert!(game.click((1, 1)));
    assert_eq!(game.selection(), Selection::Selected { index: 0, saved_background: 7 });
    assert!(game.click((8, 4)));
    assert_eq!(game.selection(), Selection::Idle);
    let after = cells_of(game.grid());
    assert_eq!(after[0], Cell::new(' ', 33, before[0].background));
    assert_eq!(after[9], Cell::new('♝', 33, before[9].background));
    for index in 0..64 {
        if index != 0 && index != 9 {
            assert_eq!(after[index], before[index]);
        }
    }
    assert!(game.position().play(
        term_grid::rules::Square::new(0, 4).unwrap(),
        term_grid::rules::Square::new(1, 4).unwrap()
    ).is_some());
}

#[test]
fn a_click_beyond_the_board_changes_nothing() {
    let mut game = Game::new(initial_grid());
    let before = cells_of(game.grid());
    assert!(!game.click((8 * 7 + 1, 1)));
    assert_eq!(game.selection(), Selection::Idle);
    assert_eq!(cells_of(game.grid()), before);
    assert!(game.click((1, 1)));
    let lit = cells_of(game.grid());
    let chosen = game.selection();
    assert!(!game.click((57, 2)));
    assert!(!game.click((3, 25)));
    assert!(!game.click((0, 0)));
    assert_eq!(game.selection(), chosen);
    assert_eq!(cells_of(game.grid()), lit);
}

#[test]
fn clicking_an_empty_square_while_idle_changes_nothing() {
    let mut game = Game::new(initial_grid());
    let before = cells_of(game.grid());
    assert!(!game.click((1, 10)));
    assert_eq!(game.selection(), Selection::Idle);
    assert_eq!(cells_of(game.grid()), before);
}

#[test]
fn a_game_is_played_by_clicks() {
    let mut game = Game::new(initial_grid());
    assert_eq!(game.handle(Event::Press(4 * 7 + 1, 6 * 3 + 1)), Action::Repaint);
    assert_eq!(game.selection(), Selection::Selected { index: 52, saved_background: 7 });
    assert_eq!(game.handle(Event::Press(4 * 7 + 1, 4 * 3 + 1)), Action::Repaint);
    assert_eq!(game.selection(), Selection::Idle);
    assert_eq!(game.grid().cell(52).unwrap().glyph, ' ');
    assert_eq!(game.grid().cell(36).unwrap().glyph, '♙');
    assert_eq!(game.handle(Event::Press(4 * 7 + 1, 3 * 3 + 1)), Action::Wait);
    assert_eq!(game.handle(Event::Press(200, 200)), Action::Wait);
    assert_eq!(game.handle(Event::Other), Action::Wait);
    assert_eq!(game.handle(Event::Key('x')), Action::Wait);
    assert_eq!(game.handle(Event::Key('q')), Action::Quit);
    assert_eq!(game.grid().cell(36).unwrap().glyph, '♙');
}

#[test]
fn settle_takes_the_answer_of_the_rules() {
    let mut game = Game::new(initial_grid());
    let before = cells_of(game.grid());
    game.settle(None);
    assert_eq!(cells_of(game.grid()), before);
    let next = Position::from_fen("b3k3/8/8/8/8/8/8/4K3 b - - 0 1").unwrap();
    game.settle(Some(next));
    let after = cells_of(game.grid());
    let glyphs: String = after.iter().map(|c| c.glyph).collect();
    assert_eq!(glyphs.chars().filter(|c| *c != ' ').collect::<String>(), "♝♚♔");
    assert_eq!(after[0].glyph, '♝');
    assert_eq!(after[4].glyph, '♚');
    assert_eq!(after[60].glyph, '♔');
    for index in 0..64 {
        assert_eq!(after[index].background, before[index].background);
        assert_eq!(after[index].foreground, before[index].foreground);
    }
}
