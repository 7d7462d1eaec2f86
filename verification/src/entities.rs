//! Entity state and playfield constants: paddles, ball, score, goal events
//! and the world that one play session mutates.
//!
//! All lengths are fixed-point integers with [`POS_SCALE`] steps per world
//! unit; direction components carry [`DIR_SCALE`] steps per unit, and elapsed
//! time carries [`TIME_SCALE`] steps per second.  Since
//! `POS_SCALE == DIR_SCALE * TIME_SCALE`, integrating a position needs no
//! division.

use vstd::prelude::*;

use crate::geometry::Vec2;

verus! {

/// Fixed-point steps per world unit of length.
pub const POS_SCALE: i64 = 1_000_000;

/// Fixed-point steps per unit of a direction component.
pub const DIR_SCALE: i64 = 1_000;

/// Fixed-point steps per second of elapsed time.
pub const TIME_SCALE: i64 = 1_000;

/// Playfield width: 500 units.
pub const WINDOW_WIDTH: i64 = 500_000_000;

/// Playfield height: 500 units.
pub const WINDOW_HEIGHT: i64 = 500_000_000;

/// Paddle width: 10 units.
pub const PADDLE_WIDTH: i64 = 10_000_000;

/// Paddle height: 50 units.
pub const PADDLE_HEIGHT: i64 = 50_000_000;

/// The ball is a square of the paddle's width: 10 units.
pub const BALL_SIZE: i64 = 10_000_000;

/// Speed of the paddles and of the ball, in units per second.
pub const PADDLE_SPEED: i64 = 100;

/// Half the paddle's width: 5 units.
pub const PADDLE_HALF_WIDTH: i64 = 5_000_000;

/// Half the paddle's height: 25 units.
pub const PADDLE_HALF_HEIGHT: i64 = 25_000_000;

/// Half the ball's extent: 5 units.
pub const BALL_HALF: i64 = 5_000_000;

/// How far a paddle's centre may sit from the middle line:
/// `(WINDOW_HEIGHT - PADDLE_HEIGHT) / 2`, that is 225 units.
pub const PADDLE_BOUND: i64 = 225_000_000;

/// Where the ball's centre meets a wall or a goal line:
/// `(WINDOW_WIDTH - PADDLE_WIDTH) / 2`, that is 245 units.
pub const BALL_BOUND: i64 = 245_000_000;

/// A bounced ball is set one unit inside the wall so the same wall does not
/// trigger again on the next tick.
pub const BOUNCE_INSET: i64 = 1_000_000;

/// Fixed x position of the player's paddle centre:
/// `-(WINDOW_HEIGHT - PADDLE_WIDTH) / 2`.
pub const PLAYER_X: i64 = -245_000_000;

/// Fixed x position of the opponent's paddle centre:
/// `(WINDOW_WIDTH - PADDLE_WIDTH) / 2`.
pub const OPPONENT_X: i64 = 245_000_000;

/// Largest elapsed time one tick accepts, about eleven days; keeps every
/// integration step far from `i64` overflow.
pub const DT_MAX: i64 = 1_000_000_000;

/// Coordinate bound under which one integration step cannot overflow.
pub const POS_LIMIT: i64 = 100_000_000_000_000_000;

/// Initial x component of the ball's direction: `3 / sqrt(13)` in
/// [`DIR_SCALE`] steps.
pub const INITIAL_DIRECTION_X: i64 = 832;

/// Initial y component of the ball's direction: `2 / sqrt(13)` in
/// [`DIR_SCALE`] steps.
pub const INITIAL_DIRECTION_Y: i64 = 555;

/// A paddle.  Only its vertical position varies during play; its horizontal
/// position is fixed per side ([`PLAYER_X`], [`OPPONENT_X`]).
#[derive(Clone, Copy, PartialEq, Eq, Structural, Debug)]
pub struct Paddle {
    pub y: i64,
}

impl Paddle {
    /// The paddle's centre never leaves the playfield.
    pub open spec fn wf(self) -> bool {
        -PADDLE_BOUND <= self.y <= PADDLE_BOUND
    }
}

/// The ball: a position and a signed unit direction, both fixed-point.
#[derive(Clone, Copy, PartialEq, Eq, Structural, Debug)]
pub struct Ball {
    pub pos: Vec2,
    pub direction: Vec2,
}

impl Ball {
    /// Direction components never exceed one unit in magnitude.
    pub open spec fn dir_wf(self) -> bool {
        &&& -DIR_SCALE <= self.direction.x <= DIR_SCALE
        &&& -DIR_SCALE <= self.direction.y <= DIR_SCALE
    }

    /// The ball's centre sits between the walls and the goal lines.
    pub open spec fn in_field(self) -> bool {
        &&& -BALL_BOUND <= self.pos.x <= BALL_BOUND
        &&& -BALL_BOUND <= self.pos.y <= BALL_BOUND
    }
}

/// The running score of one play session.
#[derive(Clone, Copy, PartialEq, Eq, Structural, Debug)]
pub struct Score {
    pub player: i32,
    pub opponent: i32,
}

impl Score {
    /// Counters start at zero and only grow.
    pub open spec fn wf(self) -> bool {
        0 <= self.player && 0 <= self.opponent
    }
}

/// Raised in the tick whose movement carried the ball past a goal line.
/// `is_player_goal` is true when the ball left on the opponent's side.
#[derive(Clone, Copy, PartialEq, Eq, Structural, Debug)]
pub struct GoalEvent {
    pub is_player_goal: bool,
}

/// Everything one play session mutates: both paddles, the ball and the score.
#[derive(Clone, Copy, PartialEq, Eq, Structural, Debug)]
pub struct World {
    pub player: Paddle,
    pub opponent: Paddle,
    pub ball: Ball,
    pub score: Score,
}

impl World {
    /// Both paddles and the ball are inside the playfield, the direction is a
    /// bounded signed unit vector and the score counters are non-negative.
    pub open spec fn wf(self) -> bool {
        &&& self.player.wf()
        &&& self.opponent.wf()
        &&& self.ball.dir_wf()
        &&& self.ball.in_field()
        &&& self.score.wf()
    }
}

/// The world as entering play creates it: paddles centred, ball in the middle
/// serving toward the opponent along the normalized `(3, 2)` direction, score
/// zero.
pub open spec fn initial_world() -> World {
    World {
        player: Paddle { y: 0 },
        opponent: Paddle { y: 0 },
        ball: Ball {
            pos: Vec2 { x: 0, y: 0 },
            direction: Vec2 { x: INITIAL_DIRECTION_X, y: INITIAL_DIRECTION_Y },
        },
        score: Score { player: 0, opponent: 0 },
    }
}

/// Builds the entities of a fresh play session: exactly one player paddle,
/// one opponent paddle and one ball, with the score reset to zero.
pub fn setup_pong() -> (w: World)
    ensures
        w == initial_world(),
        w.wf(),
{
    World {
        player: Paddle { y: 0 },
        opponent: Paddle { y: 0 },
        ball: Ball {
            pos: Vec2 { x: 0, y: 0 },
            direction: Vec2 { x: INITIAL_DIRECTION_X, y: INITIAL_DIRECTION_Y },
        },
        score: Score { player: 0, opponent: 0 },
    }
}

} // verus!
