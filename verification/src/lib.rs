//! A terminal snake game, verified: the snake's directional state machine,
//! its movement/growth/collision rules, the shared item registry, and the
//! candy spawner's sampling logic. Terminal I/O (raw mode, key polling,
//! cell drawing) stays outside the library and consumes the draw commands
//! and decisions this crate computes.

use vstd::prelude::*;

pub mod candy_spawner;
pub mod commands;
pub mod registry;
pub mod render;
pub mod snake;

verus! {

/// A grid cell, identified by column then row.
#[derive(Clone, Copy, PartialEq, Eq, Structural, Debug)]
pub struct Coord {
    pub col: u16,
    pub row: u16,
}

/// One cell to draw: put `glyph` at `at`. The library computes these;
/// putting them on the screen happens outside it.
#[derive(Clone, Copy, PartialEq, Eq, Structural, Debug)]
pub struct DrawCmd {
    pub at: Coord,
    pub glyph: char,
}

/// Width and height of the playing field, in cells.
#[derive(Clone, Copy, PartialEq, Eq, Structural, Debug)]
pub struct TerminalSize {
    pub n_rows: u16,
    pub n_cols: u16,
}

/// Tunable game parameters.
#[derive(Clone, Copy, PartialEq, Eq, Structural, Debug)]
pub struct Settings {
    pub initial_move_frequency: u16,
}

} // verus!
