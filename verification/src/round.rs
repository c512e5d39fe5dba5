//! Rounds: how a world starts, and how a round that has ended starts again.

use vstd::prelude::*;
use crate::geometry::Rect;
use crate::units::{
    PLAYER_HEIGHT, PLAYER_SPEED, PLAYER_WIDTH, PLAYER_Y, SCREEN_HEIGHT, SCREEN_WIDTH,
    WALL_THICKNESS,
};
use crate::world::{Mode, Player, Role, SpawnScheduler, Wall, World, WorldView};

verus! {

/// The four walls of the field, in the order left, right, bottom, top. They
/// are centred on the edges of the field and meet at the corners. Only the
/// bottom wall has a role: a bug that reaches it scores.
pub open spec fn field_walls() -> Seq<Wall> {
    seq![
        Wall {
            rect: Rect {
                x: (-SCREEN_WIDTH / 2) as i64,
                y: 0,
                width: WALL_THICKNESS as u64,
                height: (SCREEN_HEIGHT + WALL_THICKNESS) as u64,
            },
            role: None,
        },
        Wall {
            rect: Rect {
                x: (SCREEN_WIDTH / 2) as i64,
                y: 0,
                width: WALL_THICKNESS as u64,
                height: (SCREEN_HEIGHT + WALL_THICKNESS) as u64,
            },
            role: None,
        },
        Wall {
            rect: Rect {
                x: 0,
                y: (-SCREEN_HEIGHT / 2) as i64,
                width: (SCREEN_WIDTH + WALL_THICKNESS) as u64,
                height: WALL_THICKNESS as u64,
            },
            role: Some(Role::Scorable),
        },
        Wall {
            rect: Rect {
                x: 0,
                y: (SCREEN_HEIGHT / 2) as i64,
                width: (SCREEN_WIDTH + WALL_THICKNESS) as u64,
                height: WALL_THICKNESS as u64,
            },
            role: None,
        },
    ]
}

/// The player at rest in the middle of the field.
pub open spec fn resting_player() -> Player {
    Player {
        rect: Rect { x: 0, y: PLAYER_Y, width: PLAYER_WIDTH as u64, height: PLAYER_HEIGHT as u64 },
        speed: PLAYER_SPEED,
    }
}

impl WorldView {
    /// The world in which the first round starts.
    pub open spec fn initial() -> WorldView {
        WorldView {
            mode: Mode::Play,
            score: 0,
            scheduler: SpawnScheduler::fresh(),
            player: resting_player(),
            bugs: Seq::empty(),
            walls: field_walls(),
        }
    }

    /// The world at the start of a new round: no score, no bugs, the player
    /// back in the middle and the scheduler back at its first interval. The
    /// walls stay, and so do the player's height, size and speed.
    pub open spec fn restarted(self) -> WorldView {
        WorldView {
            mode: Mode::Play,
            score: 0,
            scheduler: SpawnScheduler::fresh(),
            player: Player { rect: Rect { x: 0, ..self.player.rect }, ..self.player },
            bugs: Seq::empty(),
            walls: self.walls,
        }
    }

    /// The world after the restart step of a frame: a new round starts when
    /// the round has ended and restart is requested, and only then.
    pub open spec fn after_restart(self, pressed: bool) -> WorldView {
        if self.mode == Mode::Stop && pressed {
            self.restarted()
        } else {
            self
        }
    }
}

/// A restart leads to the same start of a round whatever the round before
/// it was like: no score, no bugs, the player in the middle, the scheduler
/// at its first interval, and the round running. A second restart request
/// changes nothing any more.
pub proof fn lemma_restart_resets(world: WorldView, again: bool)
    requires
        world.mode == Mode::Stop,
    ensures
        world.after_restart(true).mode == Mode::Play,
        world.after_restart(true).score == 0,
        world.after_restart(true).bugs.len() == 0,
        world.after_restart(true).player.rect.x == 0,
        world.after_restart(true).scheduler == SpawnScheduler::fresh(),
        world.after_restart(true).walls == world.walls,
        world.after_restart(true).after_restart(again) == world.after_restart(true),
        world.restarted().restarted() == world.restarted(),
{
}

/// Without a request, or while the round runs, the restart step changes
/// nothing.
pub proof fn lemma_restart_needs_stop_and_request(world: WorldView, pressed: bool)
    requires
        world.mode != Mode::Stop || !pressed,
    ensures
        world.after_restart(pressed) == world,
{
}

impl World {
    /// Sets up the field: the player at rest, the four walls, no bugs, and a
    /// first round that is running.
    pub fn new() -> (world: World)
        ensures
            world@ == WorldView::initial(),
    {
        let side = Rect {
            x: 0,
            y: 0,
            width: WALL_THICKNESS as u64,
            height: (SCREEN_HEIGHT + WALL_THICKNESS) as u64,
        };
        let level = Rect {
            x: 0,
            y: 0,
            width: (SCREEN_WIDTH + WALL_THICKNESS) as u64,
            height: WALL_THICKNESS as u64,
        };
        let mut walls: Vec<Wall> = Vec::new();
        walls.push(Wall { rect: Rect { x: -SCREEN_WIDTH / 2, ..side }, role: None });
        walls.push(Wall { rect: Rect { x: SCREEN_WIDTH / 2, ..side }, role: None });
        walls.push(
            Wall { rect: Rect { y: -SCREEN_HEIGHT / 2, ..level }, role: Some(Role::Scorable) },
        );
        walls.push(Wall { rect: Rect { y: SCREEN_HEIGHT / 2, ..level }, role: None });
        assert(walls@ == field_walls());
        World {
            mode: Mode::Play,
            score: 0,
            scheduler: SpawnScheduler::new(),
            player: Player {
                rect: Rect {
                    x: 0,
                    y: PLAYER_Y,
                    width: PLAYER_WIDTH as u64,
                    height: PLAYER_HEIGHT as u64,
                },
                speed: PLAYER_SPEED,
            },
            bugs: Vec::new(),
            walls,
        }
    }

    /// The restart step of a frame. Says whether a new round started.
    pub fn restart(&mut self, pressed: bool) -> (restarted: bool)
        ensures
            restarted == (old(self).mode == Mode::Stop && pressed),
            final(self)@ == old(self)@.after_restart(pressed),
            restarted ==> final(self).mode == Mode::Play && final(self).score == 0
                && final(self).bugs@.len() == 0 && final(self).player.rect.x == 0
                && final(self).scheduler == SpawnScheduler::fresh(),
            !restarted ==> final(self)@ == old(self)@,
    {
        if self.mode != Mode::Stop || !pressed {
            return false;
        }
        self.score = 0;
        self.bugs.clear();
        self.player.rect.x = 0;
        self.scheduler.reset();
        self.mode = Mode::Play;
        true
    }
}

impl Default for World {
    fn default() -> (world: World)
        ensures
            world@ == WorldView::initial(),
    {
        World::new()
    }
}

} // verus!
