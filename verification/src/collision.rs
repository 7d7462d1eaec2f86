//! Ball integration, wall and paddle bounces, goal detection and goal
//! handling.
//!
//! Each tick, after the paddles have moved, [`ball_movement`] advances the
//! ball and resolves contacts in this order: goal lines first (which ends the
//! tick's processing), then the walls, then the paddles.  A raised
//! [`GoalEvent`] is consumed once by [`score_goal`], which books the point
//! and resets the rally.

use vstd::prelude::*;

use crate::entities::{
    BALL_BOUND, BALL_HALF, BOUNCE_INSET, DIR_SCALE, DT_MAX, Ball, GoalEvent, OPPONENT_X,
    PADDLE_HALF_HEIGHT, PADDLE_HALF_WIDTH, PADDLE_SPEED, PLAYER_X, POS_LIMIT, Paddle, Score,
};
use crate::geometry::{aabb_overlap, Vec2, clamp, interval_overlap, lemma_square_eq, spec_clamp, speed2};

verus! {

/// How far the ball travels along one axis in `dt`, with direction component
/// `dir`: `dt * PADDLE_SPEED * dir`, landing exactly on position scale.
pub open spec fn ball_step(dt: int, dir: int) -> int {
    dt * PADDLE_SPEED * dir
}

/// The ball's x coordinate after integrating one tick.
pub open spec fn moved_x(b: Ball, dt: int) -> int {
    b.pos.x + ball_step(dt, b.direction.x as int)
}

/// The ball's y coordinate after integrating one tick.
pub open spec fn moved_y(b: Ball, dt: int) -> int {
    b.pos.y + ball_step(dt, b.direction.y as int)
}

/// The ball's centre has reached a goal line.
pub open spec fn goal_line_crossed(x: int) -> bool {
    x >= BALL_BOUND || x <= -BALL_BOUND as int
}

/// The ball's centre has reached the top or bottom wall.
pub open spec fn wall_touched(y: int) -> bool {
    y >= BALL_BOUND || y <= -BALL_BOUND as int
}

/// The ball's y coordinate after the wall check: pulled one unit inside the
/// wall when the wall was touched, unchanged otherwise.
pub open spec fn bounced_y(y: int) -> int {
    if wall_touched(y) {
        spec_clamp(y, -BALL_BOUND + BOUNCE_INSET, BALL_BOUND - BOUNCE_INSET as int)
    } else {
        y
    }
}

/// The y direction component after the wall check: negated when the wall was
/// touched.
pub open spec fn bounced_dir_y(dir_y: int, y: int) -> int {
    if wall_touched(y) {
        -dir_y
    } else {
        dir_y
    }
}

/// The ball's box overlaps the player's paddle box.
pub open spec fn hits_player(bx: int, by: int, paddle_y: int) -> bool {
    &&& interval_overlap(bx, BALL_HALF as int, PLAYER_X as int, PADDLE_HALF_WIDTH as int)
    &&& interval_overlap(by, BALL_HALF as int, paddle_y, PADDLE_HALF_HEIGHT as int)
}

/// The ball's box overlaps the opponent's paddle box.
pub open spec fn hits_opponent(bx: int, by: int, paddle_y: int) -> bool {
    &&& interval_overlap(bx, BALL_HALF as int, OPPONENT_X as int, PADDLE_HALF_WIDTH as int)
    &&& interval_overlap(by, BALL_HALF as int, paddle_y, PADDLE_HALF_HEIGHT as int)
}

/// The x direction component after the paddle checks at ball position
/// `(bx, by)`: a paddle only reflects a ball moving toward it.
pub open spec fn reflected_dir_x(dir_x: int, bx: int, by: int, player_y: int, opponent_y: int) -> int {
    if dir_x < 0 && hits_player(bx, by, player_y) {
        -dir_x
    } else if dir_x > 0 && hits_opponent(bx, by, opponent_y) {
        -dir_x
    } else {
        dir_x
    }
}

/// Advances the ball by one tick and resolves its contacts.
///
/// The goal lines are tested first: when the moved ball reaches one, the
/// returned event names the scoring side, the moved position is kept as it
/// is, and — goal exclusivity — neither a wall nor a paddle reflection is
/// applied in that tick.  Otherwise a touched wall negates the y direction
/// and insets the ball, and a paddle facing the ball's travel negates the x
/// direction on box overlap.  Every contact only flips direction signs, so
/// the direction's magnitude per axis is preserved.
pub fn ball_movement(ball: &mut Ball, player_y: i64, opponent_y: i64, dt: i64) -> (goal: Option<
    GoalEvent,
>)
    requires
        old(ball).dir_wf(),
        -POS_LIMIT <= old(ball).pos.x <= POS_LIMIT,
        -POS_LIMIT <= old(ball).pos.y <= POS_LIMIT,
        -POS_LIMIT <= player_y <= POS_LIMIT,
        -POS_LIMIT <= opponent_y <= POS_LIMIT,
        0 <= dt <= DT_MAX,
    ensures
        final(ball).dir_wf(),
        goal.is_some() <==> goal_line_crossed(moved_x(*old(ball), dt as int)),
        goal matches Some(e) ==> {
            &&& e.is_player_goal == (moved_x(*old(ball), dt as int) > 0)
            &&& final(ball).pos.x == moved_x(*old(ball), dt as int)
            &&& final(ball).pos.y == moved_y(*old(ball), dt as int)
            &&& final(ball).direction == old(ball).direction
        },
        goal.is_none() ==> {
            &&& final(ball).pos.x == moved_x(*old(ball), dt as int)
            &&& final(ball).pos.y == bounced_y(moved_y(*old(ball), dt as int))
            &&& final(ball).direction.y == bounced_dir_y(
                old(ball).direction.y as int,
                moved_y(*old(ball), dt as int),
            )
            &&& final(ball).direction.x == reflected_dir_x(
                old(ball).direction.x as int,
                moved_x(*old(ball), dt as int),
                bounced_y(moved_y(*old(ball), dt as int)),
                player_y as int,
                opponent_y as int,
            )
            &&& final(ball).in_field()
        },
        vstd::math::abs(final(ball).direction.x as int) == vstd::math::abs(
            old(ball).direction.x as int,
        ),
        vstd::math::abs(final(ball).direction.y as int) == vstd::math::abs(
            old(ball).direction.y as int,
        ),
        speed2(final(ball).direction) == speed2(old(ball).direction),
{
    proof {
        assert(-100_000_000_000_000 <= dt * PADDLE_SPEED * ball.direction.x
            <= 100_000_000_000_000) by (nonlinear_arith)
            requires
                0 <= dt <= DT_MAX,
                -DIR_SCALE <= ball.direction.x <= DIR_SCALE,
        ;
        assert(-100_000_000_000_000 <= dt * PADDLE_SPEED * ball.direction.y
            <= 100_000_000_000_000) by (nonlinear_arith)
            requires
                0 <= dt <= DT_MAX,
                -DIR_SCALE <= ball.direction.y <= DIR_SCALE,
        ;
    }
    ball.pos.x = ball.pos.x + dt * PADDLE_SPEED * ball.direction.x;
    ball.pos.y = ball.pos.y + dt * PADDLE_SPEED * ball.direction.y;

    if ball.pos.x >= BALL_BOUND || ball.pos.x <= -BALL_BOUND {
        return Some(GoalEvent { is_player_goal: ball.pos.x > 0 });
    }

    if ball.pos.y >= BALL_BOUND || ball.pos.y <= -BALL_BOUND {
        ball.pos.y = clamp(ball.pos.y, -BALL_BOUND + BOUNCE_INSET, BALL_BOUND - BOUNCE_INSET);
        ball.direction.y = -ball.direction.y;
    }

    if ball.direction.x < 0 {
        let player_overlap = aabb_overlap(
            ball.pos,
            Vec2 { x: BALL_HALF, y: BALL_HALF },
            Vec2 { x: PLAYER_X, y: player_y },
            Vec2 { x: PADDLE_HALF_WIDTH, y: PADDLE_HALF_HEIGHT },
        );
        if player_overlap {
            ball.direction.x = -ball.direction.x;
        }
    } else if ball.direction.x > 0 {
        let opponent_overlap = aabb_overlap(
            ball.pos,
            Vec2 { x: BALL_HALF, y: BALL_HALF },
            Vec2 { x: OPPONENT_X, y: opponent_y },
            Vec2 { x: PADDLE_HALF_WIDTH, y: PADDLE_HALF_HEIGHT },
        );
        if opponent_overlap {
            ball.direction.x = -ball.direction.x;
        }
    }

    proof {
        lemma_square_eq(ball.direction.x as int, old(ball).direction.x as int);
        lemma_square_eq(ball.direction.y as int, old(ball).direction.y as int);
    }
    None
}

/// Consumes at most one goal event: books the point for the scoring side,
/// puts the ball back in the middle with the x component of its direction
/// flipped for the next serve, and centres both paddles.  Without an event
/// nothing changes.
pub fn score_goal(
    score: &mut Score,
    ball: &mut Ball,
    player: &mut Paddle,
    opponent: &mut Paddle,
    goal: Option<GoalEvent>,
)
    requires
        old(score).wf(),
        old(ball).dir_wf(),
        goal.is_some() ==> old(score).player < i32::MAX && old(score).opponent < i32::MAX,
    ensures
        goal.is_none() ==> {
            &&& *final(score) == *old(score)
            &&& *final(ball) == *old(ball)
            &&& *final(player) == *old(player)
            &&& *final(opponent) == *old(opponent)
        },
        goal matches Some(e) ==> {
            &&& final(score).player == old(score).player + (if e.is_player_goal {
                1int
            } else {
                0int
            })
            &&& final(score).opponent == old(score).opponent + (if e.is_player_goal {
                0int
            } else {
                1int
            })
            &&& final(ball).pos.x == 0 && final(ball).pos.y == 0
            &&& final(ball).direction.x == -old(ball).direction.x
            &&& final(ball).direction.y == old(ball).direction.y
            &&& final(player).y == 0
            &&& final(opponent).y == 0
        },
        final(score).player >= old(score).player,
        final(score).opponent >= old(score).opponent,
        final(score).wf(),
        final(ball).dir_wf(),
{
    if let Some(event) = goal {
        if event.is_player_goal {
            score.player = score.player + 1;
        } else {
            score.opponent = score.opponent + 1;
        }
        ball.direction.x = -ball.direction.x;
        ball.pos.x = 0;
        ball.pos.y = 0;
        player.y = 0;
        opponent.y = 0;
    }
}

} // verus!
