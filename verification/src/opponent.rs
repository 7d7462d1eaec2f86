//! The opponent controller: a rate-limited tracker that moves its paddle
//! toward the ball's vertical position without overshooting it.

use vstd::prelude::*;

use crate::entities::{DIR_SCALE, DT_MAX, PADDLE_BOUND, PADDLE_SPEED, POS_LIMIT, Paddle};
use crate::geometry::{clamp, spec_clamp};
use crate::physics::paddle_step;

verus! {

/// The opponent's paddle after one tick: stepped toward `ball_y` by at most
/// `paddle_step(dt)`, never past `ball_y`, then clamped to the playfield.
pub open spec fn opponent_moved(y: int, ball_y: int, dt: int) -> int {
    let step = paddle_step(dt);
    let toward = if y > ball_y {
        if y - step > ball_y {
            y - step
        } else {
            ball_y
        }
    } else if y < ball_y {
        if y + step < ball_y {
            y + step
        } else {
            ball_y
        }
    } else {
        y
    };
    spec_clamp(toward, -PADDLE_BOUND as int, PADDLE_BOUND as int)
}

/// Moves the opponent's paddle for one tick toward the ball's vertical
/// position, rate-limited and clamped to the playfield.
pub fn opponent_movement(opponent: &mut Paddle, ball_y: i64, dt: i64)
    requires
        old(opponent).wf(),
        -POS_LIMIT <= ball_y <= POS_LIMIT,
        0 <= dt <= DT_MAX,
    ensures
        final(opponent).y == opponent_moved(old(opponent).y as int, ball_y as int, dt as int),
        final(opponent).wf(),
{
    let step = dt * PADDLE_SPEED * DIR_SCALE;
    let toward = if opponent.y > ball_y {
        let lowered = opponent.y - step;
        if lowered > ball_y {
            lowered
        } else {
            ball_y
        }
    } else if opponent.y < ball_y {
        let raised = opponent.y + step;
        if raised < ball_y {
            raised
        } else {
            ball_y
        }
    } else {
        opponent.y
    };
    opponent.y = clamp(toward, -PADDLE_BOUND, PADDLE_BOUND);
}

} // verus!
