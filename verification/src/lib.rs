//! A terminal-native grid engine: layout and painting of a fixed-size grid of
//! styled cells, the inverse mapping from pointer positions to cells, and a
//! two-step "select, then act" interaction model, here driving a chessboard.

pub mod cell;
pub mod display;
pub mod escape;
pub mod fen;
pub mod format;
pub mod game;
pub mod grid;
pub mod mapper;
pub mod pad;
pub mod render;
pub mod rules;
pub mod selection;
pub mod xchess;
