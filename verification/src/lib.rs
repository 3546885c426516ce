//! A single-player terminal snake game, verified at its core.
//!
//! The game-state model and its transition rules live in [`snake`]; the
//! per-cycle decision logic of the game loop lives in [`game_loop`]; the
//! rendering capability the driver forwards state to is the trait in
//! [`display`]. Terminal I/O and the event loop driver are outside this
//! library.

pub mod display;
pub mod game_loop;
pub mod snake;
