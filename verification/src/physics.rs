//! Movement integration for the player's paddle: input-driven stepping with
//! clamping to the playfield.

use vstd::prelude::*;

use crate::entities::{DIR_SCALE, DT_MAX, PADDLE_BOUND, PADDLE_SPEED, Paddle};
use crate::geometry::{clamp, spec_clamp};

verus! {

/// How far a paddle travels in `dt`: `dt * PADDLE_SPEED`, brought to position
/// scale.
pub open spec fn paddle_step(dt: int) -> int {
    dt * PADDLE_SPEED * DIR_SCALE
}

/// The player's paddle after one tick: moved up while the up key is held,
/// then down while the down key is held, each move clamped to the playfield.
/// With both keys held, up is applied before down.
pub open spec fn player_moved(y: int, dt: int, up: bool, down: bool) -> int {
    let y_up = if up {
        spec_clamp(y + paddle_step(dt), -PADDLE_BOUND as int, PADDLE_BOUND as int)
    } else {
        y
    };
    if down {
        spec_clamp(y_up - paddle_step(dt), -PADDLE_BOUND as int, PADDLE_BOUND as int)
    } else {
        y_up
    }
}

/// Moves the player's paddle for one tick from the held key states, keeping
/// it inside the playfield.
pub fn player_movement(player: &mut Paddle, dt: i64, up: bool, down: bool)
    requires
        old(player).wf(),
        0 <= dt <= DT_MAX,
    ensures
        final(player).y == player_moved(old(player).y as int, dt as int, up, down),
        final(player).wf(),
{
    let step = dt * PADDLE_SPEED * DIR_SCALE;
    if up {
        player.y = clamp(player.y + step, -PADDLE_BOUND, PADDLE_BOUND);
    }
    if down {
        player.y = clamp(player.y - step, -PADDLE_BOUND, PADDLE_BOUND);
    }
}

} // verus!
