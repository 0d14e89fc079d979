[package]
name = "term_grid"
version = "0.1.0"
edition = "2021"
publish = false

[dependencies]
chess = "*"
matrix_display = "*"
termion = "*"
