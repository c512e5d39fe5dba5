//! The entities of the game and the state that a round carries.

use vstd::prelude::*;
use crate::geometry::Rect;

verus! {

/// Whether a round is running or has ended.
#[derive(Clone, Copy, Debug, PartialEq, Eq, Structural)]
pub enum Mode {
    Play,
    Stop,
}

/// What touching a collider does to a bug or to the round.
#[derive(Clone, Copy, Debug, PartialEq, Eq, Structural)]
pub enum Role {
    /// A bug that touches it ends the round.
    Death,
    /// A bug that touches it is removed and scores a point.
    Scorable,
}

/// One of the static walls around the field. A wall without a role is
/// scenery: no bug is ever tested against it.
#[derive(Clone, Copy, Debug, PartialEq, Eq)]
pub struct Wall {
    pub rect: Rect,
    pub role: Option<Role>,
}

/// The player's crab. Only `rect.x` changes during a round. The speed is in
/// length units per microsecond.
#[derive(Clone, Copy, Debug, PartialEq, Eq)]
pub struct Player {
    pub rect: Rect,
    pub speed: u64,
}

/// A falling bug. Its speed, in length units per microsecond, is fixed when
/// it spawns.
#[derive(Clone, Copy, Debug, PartialEq, Eq)]
pub struct Bug {
    pub rect: Rect,
    pub speed: u64,
}

/// The repeating countdown that spawns bugs. Both fields are in microseconds.
#[derive(Clone, Copy, Debug, PartialEq, Eq)]
pub struct SpawnScheduler {
    /// Time between two spawns; it shrinks each time the scheduler fires.
    pub interval: u64,
    /// Time gathered since the last spawn.
    pub elapsed: u64,
}

/// Everything a round consists of. The bugs are kept in the order in which
/// they spawned; an index into `bugs` names a bug until the next removal.
#[derive(Clone, Debug, PartialEq, Eq)]
pub struct World {
    pub mode: Mode,
    pub score: u32,
    pub scheduler: SpawnScheduler,
    pub player: Player,
    pub bugs: Vec<Bug>,
    pub walls: Vec<Wall>,
}

/// The mathematical value of a [`World`]: the same fields, with sequences in
/// place of vectors.
pub struct WorldView {
    pub mode: Mode,
    pub score: u32,
    pub scheduler: SpawnScheduler,
    pub player: Player,
    pub bugs: Seq<Bug>,
    pub walls: Seq<Wall>,
}

impl View for World {
    type V = WorldView;

    open spec fn view(&self) -> WorldView {
        WorldView {
            mode: self.mode,
            score: self.score,
            scheduler: self.scheduler,
            player: self.player,
            bugs: self.bugs@,
            walls: self.walls@,
        }
    }
}

} // verus!
