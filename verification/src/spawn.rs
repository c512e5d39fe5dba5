//! Spawning: when the scheduler fires during play, a bug appears at the top
//! of the field in one of ten columns, falling the faster the higher the
//! score.

use vstd::prelude::*;
use rand::Rng;
use crate::geometry::Rect;
use crate::units::{
    BUG_BASE_SPEED, BUG_HEIGHT, BUG_SPAWN_Y, BUG_SPEED_PER_POINT, BUG_WIDTH, END_COLUMN,
    FIRST_COLUMN,
};
use crate::world::{Bug, Mode, World, WorldView};

verus! {

/// Horizontal centre of a spawn column: columns are one bug wide, and column
/// zero starts at the middle of the field.
pub open spec fn column_x(column: int) -> int {
    column * BUG_WIDTH + BUG_WIDTH / 2
}

/// Speed of a bug that spawns at the given score: 40 pixels per second and
/// two thirds of a pixel per second more for every point.
pub open spec fn bug_speed(score: nat) -> nat {
    BUG_BASE_SPEED as nat + BUG_SPEED_PER_POINT as nat * score
}

/// The bug that spawns in `column` at the given score.
pub open spec fn new_bug(column: i32, score: nat) -> Bug {
    Bug {
        rect: Rect {
            x: column_x(column as int) as i64,
            y: BUG_SPAWN_Y,
            width: BUG_WIDTH as u64,
            height: BUG_HEIGHT as u64,
        },
        speed: bug_speed(score) as u64,
    }
}

impl WorldView {
    /// Whether `dt` more microseconds spawn a bug.
    pub open spec fn spawn_due(self, dt: u64) -> bool {
        self.mode == Mode::Play && self.scheduler.fires(dt)
    }

    /// The bug that `dt` more microseconds spawn in `column`, if any.
    pub open spec fn spawned(self, dt: u64, column: i32) -> Option<Bug> {
        if self.spawn_due(dt) {
            Some(new_bug(column, self.score as nat))
        } else {
            None
        }
    }

    /// The world after the scheduler has seen `dt` microseconds, where a bug
    /// that spawns does so in `column`. Nothing happens unless the round is
    /// running.
    pub open spec fn after_spawn(self, dt: u64, column: i32) -> WorldView {
        if self.mode != Mode::Play {
            self
        } else if self.scheduler.fires(dt) {
            WorldView {
                scheduler: self.scheduler.after_tick(dt),
                bugs: self.bugs.push(new_bug(column, self.score as nat)),
                ..self
            }
        } else {
            WorldView { scheduler: self.scheduler.after_tick(dt), ..self }
        }
    }
}

/// Unless a round runs, the scheduler stands still and no bug spawns.
pub proof fn lemma_no_spawn_unless_playing(world: WorldView, dt: u64, column: i32)
    requires
        world.mode != Mode::Play,
    ensures
        !world.spawn_due(dt),
        world.spawned(dt, column) is None,
        world.after_spawn(dt, column) == world,
{
}

/// Draws an integer with `rand::Rng::gen_range` from the generator that
/// `rand::thread_rng` keeps for the calling thread. The contract states only
/// the range that `gen_range` documents, `low` included and `high` excluded;
/// which value comes out is left open. `gen_range` panics unless
/// `low < high`, and `thread_rng` panics where the system cannot seed the
/// generator.
#[verifier::external_body]
fn random_between(low: i32, high: i32) -> (drawn: i32)
    requires
        low < high,
    ensures
        low <= drawn < high,
{
    rand::thread_rng().gen_range(low, high)
}

impl Bug {
    /// The bug that spawns in `column` at the given score.
    pub fn spawn(column: i32, score: u32) -> (bug: Bug)
        ensures
            bug == new_bug(column, score as nat),
    {
        let x: i64 = column as i64 * BUG_WIDTH + BUG_WIDTH / 2;
        let speed: u64 = BUG_BASE_SPEED + BUG_SPEED_PER_POINT * (score as u64);
        Bug {
            rect: Rect { x, y: BUG_SPAWN_Y, width: BUG_WIDTH as u64, height: BUG_HEIGHT as u64 },
            speed,
        }
    }
}

impl World {
    /// Whether `dt` more microseconds spawn a bug.
    pub fn spawn_due(&self, dt: u64) -> (due: bool)
        ensures
            due == self@.spawn_due(dt),
    {
        self.mode == Mode::Play && self.scheduler.is_due(dt)
    }

    /// Lets the scheduler see `dt` microseconds and, if it fires, spawns a
    /// bug in the given column. Returns the bug that spawned; it is then the
    /// last one in the store.
    pub fn spawn_in_column(&mut self, dt: u64, column: i32) -> (spawned: Option<Bug>)
        ensures
            spawned == old(self)@.spawned(dt, column),
            final(self)@ == old(self)@.after_spawn(dt, column),
            old(self).mode != Mode::Play ==> spawned is None && final(self)@ == old(self)@,
    {
        if self.mode != Mode::Play {
            return None;
        }
        if self.scheduler.tick(dt) {
            let bug = Bug::spawn(column, self.score);
            self.bugs.push(bug);
            Some(bug)
        } else {
            None
        }
    }

    /// Lets the scheduler see `dt` microseconds and, if it fires, spawns a
    /// bug in a column drawn at random.
    pub fn spawn(&mut self, dt: u64) -> (spawned: Option<Bug>)
        ensures
            spawned is Some <==> old(self)@.spawn_due(dt),
            old(self).mode != Mode::Play ==> spawned is None && final(self)@ == old(self)@,
            exists|column: i32|
                FIRST_COLUMN <= column < END_COLUMN && spawned == old(self)@.spawned(dt, column)
                    && final(self)@ == old(self)@.after_spawn(dt, column),
    {
        let column = if self.spawn_due(dt) {
            random_between(FIRST_COLUMN, END_COLUMN)
        } else {
            FIRST_COLUMN
        };
        self.spawn_in_column(dt, column)
    }
}

} // verus!
