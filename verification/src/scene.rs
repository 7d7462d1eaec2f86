//! The scene machine and the frame pipeline.
//!
//! The application is in one of two scenes, [`GameState::Menu`] or
//! [`GameState::Pong`].  The menu's presentation layer delivers named
//! interaction signals; the one named `"Click"` starts play, every other name
//! is ignored.  While playing, [`tick`] runs the whole per-frame pipeline in
//! its fixed order: player paddle, opponent paddle, ball, then goal handling.

use vstd::prelude::*;

use crate::collision::{
    ball_movement, bounced_dir_y, bounced_y, goal_line_crossed, moved_x, moved_y, reflected_dir_x,
    score_goal,
};
use crate::entities::{DT_MAX, GoalEvent, World, initial_world, setup_pong};
use crate::opponent::{opponent_moved, opponent_movement};
use crate::physics::{player_moved, player_movement};
use vstd::string::StringExecFns;

verus! {

/// The two scenes; the application starts in the menu.
#[derive(Clone, Copy, PartialEq, Eq, Structural, Debug, Default)]
pub enum GameState {
    #[default]
    Menu,
    Pong,
}

/// The name of the interaction signal that starts play.
pub open spec fn click_signal() -> Seq<char> {
    "Click"@
}

/// Some signal in the queue is named `"Click"`.
pub open spec fn has_click(signals: Seq<String>) -> bool {
    exists|i: int| 0 <= i < signals.len() && signals[i]@ == click_signal()
}

/// The scene after draining one queue of interaction signals: a `"Click"`
/// signal selects play, any other queue leaves the scene as it was.
pub open spec fn next_scene(state: GameState, signals: Seq<String>) -> GameState {
    if has_click(signals) {
        GameState::Pong
    } else {
        state
    }
}

/// Drains one frame's queue of named interaction signals and returns the
/// scene to be in next: `"Click"` selects play, every other name is ignored.
pub fn menu_events_system(state: GameState, signals: &Vec<String>) -> (next: GameState)
    ensures
        next == next_scene(state, signals@),
{
    let click: String = String::from_str("Click");
    let mut found = false;
    let mut i: usize = 0;
    while i < signals.len()
        invariant
            0 <= i <= signals@.len(),
            click@ == click_signal(),
            found == has_click(signals@.take(i as int)),
        decreases signals@.len() - i,
    {
        let ghost prefix = signals@.take(i as int);
        if signals[i].eq(&click) {
            found = true;
            proof {
                assert(signals@.take(i + 1)[i as int]@ == click_signal());
            }
        } else {
            proof {
                if found {
                    let k = choose|k: int| 0 <= k < prefix.len() && prefix[k]@ == click_signal();
                    assert(prefix[k] == signals@[k]);
                    assert(signals@.take(i + 1)[k]@ == click_signal());
                } else {
                    assert forall|j: int|
                        0 <= j < i + 1 && #[trigger] signals@.take(i + 1)[j]@ == click_signal()
                            implies false by {
                        assert(signals@.take(i + 1)[j] == signals@[j]);
                        if j < i {
                            assert(prefix[j] == signals@[j]);
                            assert(prefix[j]@ != click_signal());
                        }
                    }
                }
            }
        }
        i = i + 1;
    }
    proof {
        assert(signals@.take(signals@.len() as int) =~= signals@);
    }
    if found {
        GameState::Pong
    } else {
        state
    }
}

/// How one tick transforms the world and which goal event it raises.
///
/// When the moved ball crosses a goal line, the event names the scoring side
/// and the rally is reset: ball back in the middle with its serve flipped,
/// paddles centred, one point booked.  Otherwise the paddles take their
/// stepped positions and the ball takes its bounced position and direction.
pub open spec fn tick_rel(
    w0: World,
    w1: World,
    dt: int,
    up: bool,
    down: bool,
    goal: Option<GoalEvent>,
) -> bool {
    let py = player_moved(w0.player.y as int, dt, up, down);
    let oy = opponent_moved(w0.opponent.y as int, w0.ball.pos.y as int, dt);
    let mx = moved_x(w0.ball, dt);
    let my = moved_y(w0.ball, dt);
    if goal_line_crossed(mx) {
        &&& goal == Some(GoalEvent { is_player_goal: mx > 0 })
        &&& w1.ball.pos.x == 0 && w1.ball.pos.y == 0
        &&& w1.ball.direction.x == -w0.ball.direction.x
        &&& w1.ball.direction.y == w0.ball.direction.y
        &&& w1.player.y == 0 && w1.opponent.y == 0
        &&& w1.score.player == w0.score.player + (if mx > 0 {
            1int
        } else {
            0int
        })
        &&& w1.score.opponent == w0.score.opponent + (if mx > 0 {
            0int
        } else {
            1int
        })
    } else {
        &&& goal is None
        &&& w1.player.y == py
        &&& w1.opponent.y == oy
        &&& w1.ball.pos.x == mx
        &&& w1.ball.pos.y == bounced_y(my)
        &&& w1.ball.direction.y == bounced_dir_y(w0.ball.direction.y as int, my)
        &&& w1.ball.direction.x == reflected_dir_x(
            w0.ball.direction.x as int,
            mx,
            bounced_y(my),
            py,
            oy,
        )
        &&& w1.score == w0.score
    }
}

/// Runs one full tick of the play pipeline in its fixed order: player paddle
/// from the held keys, opponent paddle toward the ball, ball integration and
/// contacts, then goal handling.  Returns the goal event of this tick, if
/// any; the same event has already been consumed by the scoring step.
pub fn tick(world: &mut World, dt: i64, up: bool, down: bool) -> (goal: Option<GoalEvent>)
    requires
        old(world).wf(),
        0 <= dt <= DT_MAX,
        old(world).score.player < i32::MAX,
        old(world).score.opponent < i32::MAX,
    ensures
        final(world).wf(),
        tick_rel(*old(world), *final(world), dt as int, up, down, goal),
        final(world).score.player >= old(world).score.player,
        final(world).score.opponent >= old(world).score.opponent,
{
    player_movement(&mut world.player, dt, up, down);
    opponent_movement(&mut world.opponent, world.ball.pos.y, dt);
    let goal = ball_movement(&mut world.ball, world.player.y, world.opponent.y, dt);
    score_goal(&mut world.score, &mut world.ball, &mut world.player, &mut world.opponent, goal);
    goal
}

/// The whole application: the active scene, and the play entities while the
/// play scene is active.
#[derive(Clone, Copy, Debug)]
pub struct Game {
    pub state: GameState,
    pub world: Option<World>,
}

impl Game {
    /// Play entities exist exactly while the play scene is active, and are
    /// well formed.
    pub open spec fn wf(self) -> bool {
        &&& (self.state == GameState::Menu ==> self.world is None)
        &&& (self.state == GameState::Pong ==> (self.world matches Some(w) && w.wf()))
    }

    /// A fresh application: in the menu, with no play entities.
    pub fn new() -> (g: Game)
        ensures
            g.state == GameState::Menu,
            g.world is None,
            g.wf(),
    {
        Game { state: GameState::Menu, world: None }
    }

    /// Feeds one frame's queue of named interaction signals to the scene
    /// machine.  A `"Click"` received in the menu enters play and spawns the
    /// play entities — exactly one player paddle, one opponent paddle and one
    /// ball, with the score reset; anything else changes nothing.
    pub fn handle_signals(&mut self, signals: &Vec<String>)
        requires
            old(self).wf(),
        ensures
            final(self).wf(),
            (old(self).state == GameState::Menu && has_click(signals@)) ==> {
                &&& final(self).state == GameState::Pong
                &&& final(self).world == Some(initial_world())
            },
            !(old(self).state == GameState::Menu && has_click(signals@)) ==> *final(self) == *old(
                self,
            ),
    {
        match self.state {
            GameState::Menu => {
                let next = menu_events_system(self.state, signals);
                if next == GameState::Pong {
                    self.state = GameState::Pong;
                    self.world = Some(setup_pong());
                }
            },
            GameState::Pong => {},
        }
    }

    /// Runs one frame.  In the menu nothing happens; in play the full tick
    /// pipeline runs once, and a frame that finds the play entities missing
    /// is skipped rather than failed.
    pub fn frame(&mut self, dt: i64, up: bool, down: bool) -> (goal: Option<GoalEvent>)
        requires
            old(self).wf(),
            0 <= dt <= DT_MAX,
            old(self).world matches Some(w) ==> w.score.player < i32::MAX && w.score.opponent
                < i32::MAX,
        ensures
            final(self).wf(),
            final(self).state == old(self).state,
            old(self).state == GameState::Menu ==> *final(self) == *old(self) && goal is None,
            old(self).state == GameState::Pong ==> {
                &&& old(self).world matches Some(w0)
                &&& final(self).world matches Some(w1)
                &&& tick_rel(w0, w1, dt as int, up, down, goal)
                &&& w1.score.player >= w0.score.player
                &&& w1.score.opponent >= w0.score.opponent
            },
    {
        match self.state {
            GameState::Menu => None,
            GameState::Pong => {
                match self.world {
                    Some(w) => {
                        let mut stepped = w;
                        let goal = tick(&mut stepped, dt, up, down);
                        self.world = Some(stepped);
                        goal
                    },
                    None => None,
                }
            },
        }
    }
}

} // verus!
