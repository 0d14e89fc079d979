use term_grid::cell::Cell;
use term_grid::escape::clear;
use term_grid::format::Format;
use term_grid::game::Game;
use term_grid::grid::Grid;
use term_grid::mapper::CoordinateMapper;
use term_grid::render::{render, render_at};
use term_grid::rules::initial_grid;

#[test]
fn a_frame_opens_by_erasing_the_screen() {
    assert_eq!(clear(), "\x1b[2J\x1b[?25l\x1b[1;1H");
}

#[test]
fn a_single_cell_is_painted_in_place() {
    let grid = Grid::new(1, 1, vec![Cell::new('x', 33, 7)]).unwrap();
    let out = render(&grid, &Format::new(1, 1).unwrap()).unwrap();
    assert_eq!(out, "\x1b[2J\x1b[?25l\x1b[1;1H\x1b[1;1H\x1b[38;5;33m\x1b[48;5;7mx\x1b[m");
}

#[test]
fn cells_are_padded_and_rows_addressed() {
    let grid = Grid::new(1, 2, vec![Cell::new('a', 1, 200), Cell::new('♜', 0, 23)]).unwrap();
    let out = render(&grid, &Format::new(3, 2).unwrap()).unwrap();
    let expected = [
        "\x1b[2J\x1b[?25l\x1b[1;1H",
        "\x1b[1;1H",
        "\x1b[38;5;1m\x1b[48;5;200m   \x1b[m",
        "\x1b[38;5;0m\x1b[48;5;23m   \x1b[m",
        "\x1b[2;1H",
        "\x1b[38;5;1m\x1b[48;5;200m a \x1b[m",
        "\x1b[38;5;0m\x1b[48;5;23m ♜ \x1b[m",
    ]
    .concat();
    assert_eq!(out, expected);
}

#[test]
fn an_even_width_puts_the_odd_filler_in_front() {
    let grid = Grid::new(2, 1, vec![Cell::new('a', 1, 2), Cell::new('b', 3, 4)]).unwrap();
    let place = CoordinateMapper::new(Format::new(4, 1).unwrap(), 2, 1, 10, 120).unwrap();
    let out = render_at(&grid, &place);
    let expected = [
        "\x1b[2J\x1b[?25l\x1b[1;1H",
        "\x1b[120;10H",
        "\x1b[38;5;1m\x1b[48;5;2m  a \x1b[m",
        "\x1b[121;10H",
        "\x1b[38;5;3m\x1b[48;5;4m  b \x1b[m",
    ]
    .concat();
    assert_eq!(out, expected);
}

#[test]
fn a_grid_too_large_for_the_screen_is_not_painted() {
    let grid = Grid::new(1, 2, vec![Cell::new('a', 1, 2), Cell::new('b', 3, 4)]).unwrap();
    assert!(render(&grid, &Format::new(40000, 1).unwrap()).is_none());
    assert!(render(&grid, &Format::new(1, 70000).unwrap()).is_none());
}

#[test]
fn the_board_is_painted_in_24_rows() {
    let game = Game::new(initial_grid());
    let out = game.draw();
    assert!(out.starts_with("\x1b[2J\x1b[?25l\x1b[1;1H\x1b[1;1H\x1b[38;5;33m\x1b[48;5;7m       \x1b[m"));
    assert_eq!(out.matches('H').count(), 1 + 24);
    assert_eq!(out.matches("\x1b[m").count(), 24 * 8);
    assert!(out.contains("\x1b[2;1H\x1b[38;5;33m\x1b[48;5;7m   ♜   \x1b[m\x1b[38;5;33m\x1b[48;5;0m   ♞   \x1b[m"));
    assert!(out.contains("\x1b[24;1H"));
    assert!(!out.contains("\x1b[25;1H"));
    let format = Format::new(7, 3).unwrap();
    assert_eq!(render(game.grid(), &format), Some(out));
}
