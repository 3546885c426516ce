//! The per-cycle decision logic of the game loop. Each cycle the driver
//! either decodes a pending input event or, after a quiescent interval,
//! reports a simulation tick; `game_step` consumes that observation,
//! mutates the state, and tells the driver what to do next.

use vstd::prelude::*;
use crate::snake::{
    check_for_collision, hits_wall, perpendicular, step_x, step_y, update_snake, Direction, Point,
    SnakeState,
};

verus! {

/// One observation per loop cycle: a quit key, a directional key, some
/// other event to discard, or the poll timeout elapsing (one simulation
/// tick).
#[derive(Copy, Clone, Debug, PartialEq, Eq, Structural)]
pub enum GameEvent {
    Quit,
    Turn(Direction),
    Ignored,
    Tick,
}

/// What the driver must do after a step: leave the loop (`collided` tells a
/// wall collision from an explicit quit), redraw with one vacated cell to
/// erase, or just poll again.
#[derive(Copy, Clone, Debug, PartialEq, Eq, Structural)]
pub enum LoopCommand {
    Stop { collided: bool },
    Draw { erased: Point },
    Wait,
}

/// Two states that agree on everything the game observes.
pub open spec fn same_game(a: SnakeState, b: SnakeState) -> bool {
    &&& a.direction == b.direction
    &&& a.score == b.score
    &&& a.body@ == b.body@
}

/// One cycle of the game loop, given a playable state and the cycle's
/// observation.
///
/// A quit key stops the loop at once, untouched state, no final draw. A
/// directional key redirects the snake under the anti-reversal rule and the
/// loop re-polls without advancing simulation time; so does any other event,
/// with nothing changed at all. A tick first tests for a boundary collision:
/// on collision the loop stops, the fatal position never drawn; otherwise
/// the snake advances one cell and the driver redraws, erasing the vacated
/// tail cell. The state stays playable, so the loop may run on without any
/// further check.
pub fn game_step(state: &mut SnakeState, event: GameEvent, width: u16, height: u16) -> (cmd:
    LoopCommand)
    requires
        old(state).in_play(width, height),
    ensures
        final(state).in_play(width, height),
        match event {
            GameEvent::Quit => ({
                &&& cmd == (LoopCommand::Stop { collided: false })
                &&& same_game(*final(state), *old(state))
            }),
            GameEvent::Turn(d) => ({
                &&& cmd == LoopCommand::Wait
                &&& final(state).direction == if perpendicular(old(state).direction, d) {
                    d
                } else {
                    old(state).direction
                }
                &&& final(state).body@ == old(state).body@
                &&& final(state).score == old(state).score
            }),
            GameEvent::Ignored => ({
                &&& cmd == LoopCommand::Wait
                &&& same_game(*final(state), *old(state))
            }),
            GameEvent::Tick => ({
                if hits_wall(old(state).spec_head(), old(state).direction, width, height) {
                    &&& cmd == (LoopCommand::Stop { collided: true })
                    &&& same_game(*final(state), *old(state))
                } else {
                    &&& cmd == (LoopCommand::Draw { erased: old(state).spec_tail() })
                    &&& final(state).body@.len() == old(state).body@.len()
                    &&& final(state).spec_head().x == step_x(
                        old(state).spec_head(),
                        old(state).direction,
                    )
                    &&& final(state).spec_head().y == step_y(
                        old(state).spec_head(),
                        old(state).direction,
                    )
                    &&& final(state).body@ == seq![final(state).spec_head()] + old(
                        state,
                    ).body@.drop_last()
                    &&& final(state).direction == old(state).direction
                    &&& final(state).score == old(state).score
                }
            }),
        },
{
    match event {
        GameEvent::Quit => LoopCommand::Stop { collided: false },
        GameEvent::Turn(d) => {
            state.change_direction(d);
            LoopCommand::Wait
        },
        GameEvent::Ignored => LoopCommand::Wait,
        GameEvent::Tick => {
            if check_for_collision(state, width, height) {
                LoopCommand::Stop { collided: true }
            } else {
                let erased = state.body[state.body.len() - 1];
                update_snake(state);
                LoopCommand::Draw { erased }
            }
        },
    }
}

} // verus!
