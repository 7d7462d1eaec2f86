//! Exercises the simulation on concrete values: the three scenarios, the
//! edge cases of clamping and bouncing, goal handling and the score display.

use pong_core::collision::{ball_movement, score_goal};
use pong_core::display::update_score;
use pong_core::entities::{setup_pong, Ball, GoalEvent, Paddle, Score};
use pong_core::geometry::{aabb_overlap, Vec2};
use pong_core::opponent::opponent_movement;
use pong_core::physics::player_movement;
use pong_core::scene::{menu_events_system, tick, Game, GameState};

// One world unit in fixed-point position steps.
const U: i64 = 1_000_000;
// A tenth of a second in fixed-point time steps.
const TENTH: i64 = 100;

fn ball(x: i64, y: i64, dx: i64, dy: i64) -> Ball {
    Ball { pos: Vec2 { x, y }, direction: Vec2 { x: dx, y: dy } }
}

#[test]
fn scenario_a_exit_right_is_player_goal() {
    // Ball at x = 249.9 moving right: already past the half-width 245, so
    // the first tick raises a goal for the player.
    let mut b = ball(2499 * U / 10, 0, 1000, 0);
    let goal = ball_movement(&mut b, 0, 0, TENTH);
    assert_eq!(goal, Some(GoalEvent { is_player_goal: true }));
}

#[test]
fn scenario_a_exit_left_is_opponent_goal() {
    let mut b = ball(-2499 * U / 10, 0, -1000, 0);
    let goal = ball_movement(&mut b, 0, 0, TENTH);
    assert_eq!(goal, Some(GoalEvent { is_player_goal: false }));
}

#[test]
fn scenario_b_opponent_tracks_ball_down() {
    // Opponent at y = 40, ball at y = 10, one tick of 0.1 s at speed 100:
    // the paddle steps 10 units down toward the ball.
    let mut opponent = Paddle { y: 40 * U };
    opponent_movement(&mut opponent, 10 * U, TENTH);
    assert_eq!(opponent.y, 30 * U);
}

#[test]
fn opponent_never_overshoots_ball() {
    // A full step would pass the ball; the paddle stops on it instead.
    let mut opponent = Paddle { y: 40 * U };
    opponent_movement(&mut opponent, 35 * U, TENTH);
    assert_eq!(opponent.y, 35 * U);

    let mut opponent = Paddle { y: -40 * U };
    opponent_movement(&mut opponent, -36 * U, TENTH);
    assert_eq!(opponent.y, -36 * U);
}

#[test]
fn opponent_clamped_to_playfield() {
    // Tracking a ball beyond the paddle's range stops at the boundary 225.
    let mut opponent = Paddle { y: 224 * U };
    opponent_movement(&mut opponent, 240 * U, 10 * TENTH);
    assert_eq!(opponent.y, 225 * U);
}

#[test]
fn player_clamped_at_top_and_bottom() {
    // One second at speed 100 moves 100 units; from 220 the paddle stops at
    // the boundary 225.
    let mut player = Paddle { y: 220 * U };
    player_movement(&mut player, 10 * TENTH, true, false);
    assert_eq!(player.y, 225 * U);

    let mut player = Paddle { y: -220 * U };
    player_movement(&mut player, 10 * TENTH, false, true);
    assert_eq!(player.y, -225 * U);
}

#[test]
fn player_both_keys_cancel_in_the_open() {
    let mut player = Paddle { y: 50 * U };
    player_movement(&mut player, TENTH, true, true);
    assert_eq!(player.y, 50 * U);
}

#[test]
fn player_both_keys_bias_down_at_the_top() {
    // Up is applied before down: at the top boundary the up move is clamped
    // away, so the down move leaves a net 10-unit drop.
    let mut player = Paddle { y: 225 * U };
    player_movement(&mut player, TENTH, true, true);
    assert_eq!(player.y, 215 * U);
}

#[test]
fn player_holds_still_without_input() {
    let mut player = Paddle { y: 123 * U };
    player_movement(&mut player, 10 * TENTH, false, false);
    assert_eq!(player.y, 123 * U);
}

#[test]
fn ball_bounces_off_top_wall() {
    // From y = 240 moving straight up 10 units: past the wall at 245, so the
    // ball is set one unit inside (244) and its y direction flips.
    let mut b = ball(0, 240 * U, 0, 1000);
    let goal = ball_movement(&mut b, 0, 0, TENTH);
    assert_eq!(goal, None);
    assert_eq!(b.pos.y, 244 * U);
    assert_eq!(b.direction.y, -1000);
    assert_eq!(b.direction.x, 0);
}

#[test]
fn ball_bounces_off_bottom_wall() {
    let mut b = ball(0, -240 * U, 0, -1000);
    let goal = ball_movement(&mut b, 0, 0, TENTH);
    assert_eq!(goal, None);
    assert_eq!(b.pos.y, -244 * U);
    assert_eq!(b.direction.y, 1000);
}

#[test]
fn ball_reflects_off_player_paddle() {
    // Ball moving left ends at x = -242, within 10 units of the player
    // paddle's centre line at -245 and level with it: the x direction flips.
    let mut b = ball(-232 * U, 0, -1000, 0);
    let goal = ball_movement(&mut b, 0, 0, TENTH);
    assert_eq!(goal, None);
    assert_eq!(b.pos.x, -242 * U);
    assert_eq!(b.direction.x, 1000);
}

#[test]
fn ball_misses_player_paddle_moved_away() {
    // The paddle sits 40 units above the ball's path: no overlap, no bounce.
    let mut b = ball(-232 * U, 0, -1000, 0);
    let goal = ball_movement(&mut b, 40 * U, 0, TENTH);
    assert_eq!(goal, None);
    assert_eq!(b.direction.x, -1000);
}

#[test]
fn ball_reflects_off_opponent_paddle() {
    let mut b = ball(232 * U, 0, 1000, 0);
    let goal = ball_movement(&mut b, 0, 0, TENTH);
    assert_eq!(goal, None);
    assert_eq!(b.pos.x, 242 * U);
    assert_eq!(b.direction.x, -1000);
}

#[test]
fn paddle_ignores_ball_moving_away() {
    // The ball overlaps the opponent paddle but moves toward the player:
    // only the paddle the ball moves toward may reflect it.
    let mut b = ball(242 * U, 0, -1000, 0);
    let goal = ball_movement(&mut b, 0, 0, 0);
    assert_eq!(goal, None);
    assert_eq!(b.direction.x, -1000);
}

#[test]
fn goal_tick_applies_no_bounce_or_reflection() {
    // The moved ball is past the goal line and past the wall at once: the
    // goal wins, the position is kept as moved and the direction untouched.
    let mut b = ball(240 * U, 244 * U, 1000, 1000);
    let goal = ball_movement(&mut b, 0, 0, TENTH);
    assert_eq!(goal, Some(GoalEvent { is_player_goal: true }));
    assert_eq!(b.pos.x, 250 * U);
    assert_eq!(b.pos.y, 254 * U);
    assert_eq!(b.direction.x, 1000);
    assert_eq!(b.direction.y, 1000);
}

#[test]
fn bounce_preserves_direction_magnitude() {
    let mut b = ball(0, 240 * U, 832, 555);
    let before = b.direction.x * b.direction.x + b.direction.y * b.direction.y;
    let goal = ball_movement(&mut b, 0, 0, TENTH);
    assert_eq!(goal, None);
    let after = b.direction.x * b.direction.x + b.direction.y * b.direction.y;
    assert_eq!(after, before);
}

#[test]
fn score_goal_books_player_point_and_resets() {
    let mut score = Score { player: 2, opponent: 5 };
    let mut b = ball(250 * U, 30 * U, 1000, 555);
    let mut player = Paddle { y: 44 * U };
    let mut opponent = Paddle { y: -12 * U };
    score_goal(
        &mut score,
        &mut b,
        &mut player,
        &mut opponent,
        Some(GoalEvent { is_player_goal: true }),
    );
    assert_eq!(score, Score { player: 3, opponent: 5 });
    assert_eq!(b.pos, Vec2 { x: 0, y: 0 });
    assert_eq!(b.direction, Vec2 { x: -1000, y: 555 });
    assert_eq!(player.y, 0);
    assert_eq!(opponent.y, 0);
}

#[test]
fn score_goal_books_opponent_point() {
    let mut score = Score { player: 2, opponent: 5 };
    let mut b = ball(-250 * U, 0, -1000, 555);
    let mut player = Paddle { y: 44 * U };
    let mut opponent = Paddle { y: -12 * U };
    score_goal(
        &mut score,
        &mut b,
        &mut player,
        &mut opponent,
        Some(GoalEvent { is_player_goal: false }),
    );
    assert_eq!(score, Score { player: 2, opponent: 6 });
    assert_eq!(b.direction.x, 1000);
}

#[test]
fn score_goal_without_event_changes_nothing() {
    let mut score = Score { player: 2, opponent: 5 };
    let mut b = ball(10 * U, 20 * U, 832, 555);
    let mut player = Paddle { y: 44 * U };
    let mut opponent = Paddle { y: -12 * U };
    score_goal(&mut score, &mut b, &mut player, &mut opponent, None);
    assert_eq!(score, Score { player: 2, opponent: 5 });
    assert_eq!(b, ball(10 * U, 20 * U, 832, 555));
    assert_eq!(player.y, 44 * U);
    assert_eq!(opponent.y, -12 * U);
}

#[test]
fn tick_runs_the_whole_pipeline() {
    let mut w = setup_pong();
    w.ball = ball(2499 * U / 10, 17 * U, 1000, 0);
    w.player = Paddle { y: 100 * U };
    w.opponent = Paddle { y: -50 * U };
    let goal = tick(&mut w, TENTH, false, false);
    assert_eq!(goal, Some(GoalEvent { is_player_goal: true }));
    assert_eq!(w.score, Score { player: 1, opponent: 0 });
    assert_eq!(w.ball.pos, Vec2 { x: 0, y: 0 });
    assert_eq!(w.ball.direction, Vec2 { x: -1000, y: 0 });
    assert_eq!(w.player.y, 0);
    assert_eq!(w.opponent.y, 0);
}

#[test]
fn tick_without_contact_only_moves() {
    let mut w = setup_pong();
    let goal = tick(&mut w, TENTH, true, false);
    assert_eq!(goal, None);
    // The player stepped up 10 units; the opponent tracked the centred ball
    // and stayed; the ball advanced 0.832 and 0.555 units per axis.
    assert_eq!(w.player.y, 10 * U);
    assert_eq!(w.opponent.y, 0);
    assert_eq!(w.ball.pos, Vec2 { x: 8_320_000, y: 5_550_000 });
    assert_eq!(w.score, Score { player: 0, opponent: 0 });
}

#[test]
fn scenario_c_click_starts_play() {
    let mut game = Game::new();
    assert_eq!(game.state, GameState::Menu);
    assert!(game.world.is_none());
    game.handle_signals(&vec!["Click".to_string()]);
    assert_eq!(game.state, GameState::Pong);
    // Exactly one player paddle, one opponent paddle and one ball exist.
    let w = game.world.expect("play entities spawned");
    assert_eq!(w.player.y, 0);
    assert_eq!(w.opponent.y, 0);
    assert_eq!(w.ball.pos, Vec2 { x: 0, y: 0 });
    assert_eq!(w.ball.direction, Vec2 { x: 832, y: 555 });
    assert_eq!(w.score, Score { player: 0, opponent: 0 });
}

#[test]
fn scenario_c_hover_changes_nothing() {
    let mut game = Game::new();
    game.handle_signals(&vec!["Hover".to_string()]);
    assert_eq!(game.state, GameState::Menu);
    assert!(game.world.is_none());
}

#[test]
fn click_among_other_signals_still_starts_play() {
    let mut game = Game::new();
    game.handle_signals(&vec!["Hover".to_string(), "Click".to_string(), "Drag".to_string()]);
    assert_eq!(game.state, GameState::Pong);
    assert!(game.world.is_some());
}

#[test]
fn menu_events_system_is_case_sensitive() {
    let next = menu_events_system(GameState::Menu, &vec!["click".to_string()]);
    assert_eq!(next, GameState::Menu);
    let next = menu_events_system(GameState::Menu, &vec!["Click".to_string()]);
    assert_eq!(next, GameState::Pong);
}

#[test]
fn frame_in_menu_does_nothing() {
    let mut game = Game::new();
    let goal = game.frame(TENTH, true, false);
    assert_eq!(goal, None);
    assert_eq!(game.state, GameState::Menu);
    assert!(game.world.is_none());
}

#[test]
fn frames_accumulate_score_monotonically() {
    let mut game = Game::new();
    game.handle_signals(&vec!["Click".to_string()]);
    let mut last_player = 0;
    let mut last_opponent = 0;
    let mut goals = 0;
    for _ in 0..20000 {
        let goal = game.frame(TENTH, false, false);
        let w = game.world.expect("play entities stay");
        assert!(w.score.player >= last_player);
        assert!(w.score.opponent >= last_opponent);
        if let Some(e) = goal {
            goals += 1;
            // Exactly one counter moved, by exactly one, on the event's side.
            if e.is_player_goal {
                assert_eq!(w.score.player, last_player + 1);
                assert_eq!(w.score.opponent, last_opponent);
            } else {
                assert_eq!(w.score.opponent, last_opponent + 1);
                assert_eq!(w.score.player, last_player);
            }
            // Reset correctness right after a goal.
            assert_eq!(w.ball.pos, Vec2 { x: 0, y: 0 });
            assert_eq!(w.player.y, 0);
            assert_eq!(w.opponent.y, 0);
        } else {
            assert_eq!(w.score.player, last_player);
            assert_eq!(w.score.opponent, last_opponent);
        }
        last_player = w.score.player;
        last_opponent = w.score.opponent;
    }
    assert!(goals > 0);
}

#[test]
fn aabb_overlap_strict_at_edges() {
    let half = Vec2 { x: 5 * U, y: 5 * U };
    let paddle_half = Vec2 { x: 5 * U, y: 25 * U };
    // Touching edge-to-edge is no overlap.
    let touching = aabb_overlap(
        Vec2 { x: 0, y: 0 },
        half,
        Vec2 { x: 10 * U, y: 0 },
        paddle_half,
    );
    assert!(!touching);
    let overlapping = aabb_overlap(
        Vec2 { x: 0, y: 0 },
        half,
        Vec2 { x: 10 * U - 1, y: 0 },
        paddle_half,
    );
    assert!(overlapping);
}

#[test]
fn update_score_formats_both_counters() {
    assert_eq!(update_score(&Score { player: 0, opponent: 0 }), "0 | 0");
    assert_eq!(update_score(&Score { player: 3, opponent: 7 }), "3 | 7");
    assert_eq!(update_score(&Score { player: 12, opponent: 105 }), "12 | 105");
    assert_eq!(
        update_score(&Score { player: 2147483647, opponent: 10 }),
        "2147483647 | 10"
    );
}
