//! Laws of the simulation that span several functions, stated over the same
//! spec functions the function contracts use and proved once and for all.

use vstd::prelude::*;

use vstd::math::abs;

use crate::entities::{GoalEvent, PADDLE_BOUND};
use crate::geometry::{lemma_square_eq, speed2, Vec2};
use crate::opponent::opponent_moved;
use crate::physics::player_moved;

verus! {

/// Bounces preserve speed: a contact only flips the sign of direction
/// components — as the per-axis magnitude equalities in the contract of
/// `ball_movement` state — so the direction's squared magnitude after any
/// wall or paddle bounce equals the one before it.
pub proof fn lemma_reflection_preserves_speed(before: Vec2, after: Vec2)
    requires
        abs(after.x as int) == abs(before.x as int),
        abs(after.y as int) == abs(before.y as int),
    ensures
        speed2(after) == speed2(before),
{
    lemma_square_eq(after.x as int, before.x as int);
    lemma_square_eq(after.y as int, before.y as int);
}

/// The player's paddle after a whole run of ticks, each with its elapsed
/// time and its two held-key states, folded through `player_moved`.
pub open spec fn player_y_after(y0: int, moves: Seq<(int, bool, bool)>) -> int
    decreases moves.len(),
{
    if moves.len() == 0 {
        y0
    } else {
        player_y_after(
            player_moved(y0, moves[0].0, moves[0].1, moves[0].2),
            moves.drop_first(),
        )
    }
}

/// Paddle clamping, player side: starting inside the playfield, the player's
/// paddle stays inside it over any sequence of ticks, whatever the elapsed
/// times and key states.
pub proof fn lemma_player_stays_clamped(y0: int, moves: Seq<(int, bool, bool)>)
    requires
        -PADDLE_BOUND <= y0 <= PADDLE_BOUND,
    ensures
        -PADDLE_BOUND <= player_y_after(y0, moves) <= PADDLE_BOUND,
    decreases moves.len(),
{
    if moves.len() > 0 {
        let y1 = player_moved(y0, moves[0].0, moves[0].1, moves[0].2);
        assert(-PADDLE_BOUND <= y1 <= PADDLE_BOUND);
        lemma_player_stays_clamped(y1, moves.drop_first());
    }
}

/// The opponent's paddle after a whole run of ticks, each with the ball's
/// vertical position it saw and its elapsed time, folded through
/// `opponent_moved`.
pub open spec fn opponent_y_after(y0: int, moves: Seq<(int, int)>) -> int
    decreases moves.len(),
{
    if moves.len() == 0 {
        y0
    } else {
        opponent_y_after(opponent_moved(y0, moves[0].0, moves[0].1), moves.drop_first())
    }
}

/// Paddle clamping, opponent side: starting inside the playfield, the
/// opponent's paddle stays inside it over any sequence of ticks, whatever
/// ball positions it tracked and whatever the elapsed times.
pub proof fn lemma_opponent_stays_clamped(y0: int, moves: Seq<(int, int)>)
    requires
        -PADDLE_BOUND <= y0 <= PADDLE_BOUND,
    ensures
        -PADDLE_BOUND <= opponent_y_after(y0, moves) <= PADDLE_BOUND,
    decreases moves.len(),
{
    if moves.len() > 0 {
        let y1 = opponent_moved(y0, moves[0].0, moves[0].1);
        assert(-PADDLE_BOUND <= y1 <= PADDLE_BOUND);
        lemma_opponent_stays_clamped(y1, moves.drop_first());
    }
}

/// Both counters after a whole run of goal events, each booked for its side.
pub open spec fn score_pair_after(player: int, opponent: int, goals: Seq<GoalEvent>) -> (int, int)
    decreases goals.len(),
{
    if goals.len() == 0 {
        (player, opponent)
    } else if goals[0].is_player_goal {
        score_pair_after(player + 1, opponent, goals.drop_first())
    } else {
        score_pair_after(player, opponent + 1, goals.drop_first())
    }
}

/// How many of the goal events fell on the player's side.
pub open spec fn player_goals(goals: Seq<GoalEvent>) -> int
    decreases goals.len(),
{
    if goals.len() == 0 {
        0
    } else {
        (if goals[0].is_player_goal {
            1int
        } else {
            0int
        }) + player_goals(goals.drop_first())
    }
}

/// How many of the goal events fell on the opponent's side.
pub open spec fn opponent_goals(goals: Seq<GoalEvent>) -> int
    decreases goals.len(),
{
    if goals.len() == 0 {
        0
    } else {
        (if goals[0].is_player_goal {
            0int
        } else {
            1int
        }) + opponent_goals(goals.drop_first())
    }
}

/// Score monotonicity: over any run of goal events each counter grows by
/// exactly one per event on its side and never decreases.
pub proof fn lemma_score_monotone(player: int, opponent: int, goals: Seq<GoalEvent>)
    ensures
        score_pair_after(player, opponent, goals).0 == player + player_goals(goals),
        score_pair_after(player, opponent, goals).1 == opponent + opponent_goals(goals),
        score_pair_after(player, opponent, goals).0 >= player,
        score_pair_after(player, opponent, goals).1 >= opponent,
    decreases goals.len(),
{
    if goals.len() > 0 {
        if goals[0].is_player_goal {
            lemma_score_monotone(player + 1, opponent, goals.drop_first());
        } else {
            lemma_score_monotone(player, opponent + 1, goals.drop_first());
        }
    }
}

} // verus!
