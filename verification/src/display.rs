//! The rendering capability the game loop drives. The library only states
//! the interface; a terminal-backed implementation (or a test stub) lives
//! with the driver, outside the verified code.

use vstd::prelude::*;
use crate::snake::{Point, SnakeScore, SnakeState};

verus! {

/// A render sink. `draw` renders all body cells and clears the single
/// vacated tail cell; `start_game` draws the playfield border once and an
/// initial score; `update_score` renders the numeric score near the top
/// border. The core never computes layout geometry itself.
pub trait Display {
    fn draw(&mut self, state: &SnakeState, tail: Point);

    fn start_game(&mut self);

    fn update_score(&mut self, score: SnakeScore);
}

} // verus!
