//! One frame of the game: the systems in their fixed order.

use vstd::prelude::*;
use crate::collision::{indices_of, lemma_collision_pass_settles};
use crate::hud::{Hud, HudView};
use crate::units::{END_COLUMN, FIRST_COLUMN};
use crate::world::{Bug, Mode, World, WorldView};

verus! {

/// The keys held during a frame.
#[derive(Clone, Copy, Debug, PartialEq, Eq)]
pub struct Input {
    pub left: bool,
    pub right: bool,
    /// Asks for a new round; it is heeded only once the round has ended.
    pub restart: bool,
}

/// What a frame did, for the layers that draw and play sounds.
#[derive(Clone, Debug, PartialEq, Eq)]
pub struct FrameReport {
    /// The bug that spawned, if one did. It was appended to the store
    /// before the collision pass ran.
    pub spawned: Option<Bug>,
    /// The indices, in increasing order, that the bugs removed by the
    /// collision pass had in the store when the pass began. Each of them
    /// scored, and one scoring sound is due for each.
    pub despawned: Vec<usize>,
    /// The texts to show, derived before the restart step.
    pub hud: Hud,
    /// Whether a new round started at the end of the frame; every bug that
    /// was left is then gone.
    pub restarted: bool,
}

impl WorldView {
    /// The world as the collision pass of a frame finds it: the player and
    /// the bugs have moved and the scheduler has had its turn.
    pub open spec fn after_motion(self, input: Input, dt: u64, column: i32) -> WorldView {
        self.after_integration(dt, input.left, input.right).after_spawn(dt, column)
    }

    /// The world after a frame of `dt` microseconds in which a bug that
    /// spawns does so in `column`: movement, spawning, collisions and the
    /// restart step, in this order.
    pub open spec fn after_frame(self, input: Input, dt: u64, column: i32) -> WorldView {
        self.after_motion(input, dt, column).after_collisions().after_restart(input.restart)
    }
}

/// The mathematical value of a [`FrameReport`].
pub struct FrameReportView {
    pub spawned: Option<Bug>,
    pub despawned: Seq<int>,
    pub hud: HudView,
    pub restarted: bool,
}

impl View for FrameReport {
    type V = FrameReportView;

    open spec fn view(&self) -> FrameReportView {
        FrameReportView {
            spawned: self.spawned,
            despawned: indices_of(self.despawned@),
            hud: self.hud@,
            restarted: self.restarted,
        }
    }
}

impl WorldView {
    /// The report of the frame that [`WorldView::after_frame`] describes.
    pub open spec fn frame_report(self, input: Input, dt: u64, column: i32) -> FrameReportView {
        let moved = self.after_motion(input, dt, column);
        let settled = moved.after_collisions();
        FrameReportView {
            spawned: self.spawned(dt, column),
            despawned: moved.scoring(),
            hud: settled.hud(),
            restarted: settled.mode == Mode::Stop && input.restart,
        }
    }
}

/// A frame leaves the player between the side walls: while the round runs
/// the movement puts it there, and otherwise it stays where it stood or
/// returns to the middle.
pub proof fn lemma_frame_keeps_player_between_walls(
    world: WorldView,
    input: Input,
    dt: u64,
    column: i32,
)
    requires
        world.mode == Mode::Play || world.player_in_bounds(),
    ensures
        world.after_frame(input, dt, column).player_in_bounds(),
{
}

/// Unless the round runs, nothing moves and nothing spawns in a frame: the
/// collision pass finds the world as the frame began.
pub proof fn lemma_frozen_unless_playing(world: WorldView, input: Input, dt: u64, column: i32)
    requires
        world.mode != Mode::Play,
    ensures
        world.after_motion(input, dt, column) == world,
{
}

/// Once a frame has ended the round, the frames that follow change nothing
/// until one of them asks for a restart.
pub proof fn lemma_ended_round_stands_still(
    world: WorldView,
    first: Input,
    first_dt: u64,
    first_column: i32,
    next: Input,
    next_dt: u64,
    next_column: i32,
)
    requires
        world.after_frame(first, first_dt, first_column).mode == Mode::Stop,
        !next.restart,
    ensures
        world.after_frame(first, first_dt, first_column).after_frame(next, next_dt, next_column)
            == world.after_frame(first, first_dt, first_column),
{
    let moved = world.after_motion(first, first_dt, first_column);
    let ended = world.after_frame(first, first_dt, first_column);
    assert(ended == moved.after_collisions());
    lemma_collision_pass_settles(moved);
    lemma_collision_pass_settles(ended);
    assert(ended.after_motion(next, next_dt, next_column) == ended);
    assert(ended.after_collisions() == ended);
}

/// The mode changes in two ways only. A running round ends in the frame in
/// which a bug reaches the player, and in no other. A round that has ended
/// starts again in the frame that asks for a restart, and in no other; this
/// may be the very frame that ended it.
pub proof fn lemma_mode_transitions(world: WorldView, input: Input, dt: u64, column: i32)
    ensures
        world.after_frame(input, dt, column).mode == Mode::Stop <==> !input.restart && (world.mode
            == Mode::Stop || world.after_motion(input, dt, column).player_caught()),
{
}

/// Within a round the score never drops: only the frame that restarts sets
/// it back to zero.
pub proof fn lemma_score_never_drops_within_a_round(
    world: WorldView,
    input: Input,
    dt: u64,
    column: i32,
)
    requires
        !input.restart,
    ensures
        world.after_frame(input, dt, column).score >= world.score,
{
}

/// A restart request that finds the round ended starts the next round
/// within the same frame.
pub proof fn lemma_restart_takes_one_frame(world: WorldView, input: Input, dt: u64, column: i32)
    requires
        world.mode == Mode::Stop,
        input.restart,
    ensures
        world.after_frame(input, dt, column) == world.after_collisions().restarted(),
        world.after_frame(input, dt, column).mode == Mode::Play,
{
}

impl World {
    /// Runs one frame of `dt` microseconds in which a bug that spawns does so
    /// in `column`.
    pub fn frame_in_column(&mut self, input: Input, dt: u64, column: i32) -> (report: FrameReport)
        ensures
            final(self)@ == old(self)@.after_frame(input, dt, column),
            report@ == old(self)@.frame_report(input, dt, column),
    {
        self.integrate(dt, input.left, input.right);
        let spawned = self.spawn_in_column(dt, column);
        let despawned = self.resolve_collisions();
        let hud = self.hud();
        let restarted = self.restart(input.restart);
        FrameReport { spawned, despawned, hud, restarted }
    }

    /// Runs one frame of `dt` microseconds. A bug that spawns does so in a
    /// column drawn at random, so the contract holds for one of the ten
    /// columns without saying which.
    pub fn frame(&mut self, input: Input, dt: u64) -> (report: FrameReport)
        ensures
            exists|column: i32|
                FIRST_COLUMN <= column < END_COLUMN && final(self)@ == old(self)@.after_frame(
                    input,
                    dt,
                    column,
                ) && report@ == old(self)@.frame_report(input, dt, column),
    {
        let ghost before = self@;
        self.integrate(dt, input.left, input.right);
        let ghost moved = self@;
        let spawned = self.spawn(dt);
        let ghost column = choose|column: i32|
            FIRST_COLUMN <= column < END_COLUMN && spawned == moved.spawned(dt, column) && self@
                == moved.after_spawn(dt, column);
        let despawned = self.resolve_collisions();
        let hud = self.hud();
        let restarted = self.restart(input.restart);
        let report = FrameReport { spawned, despawned, hud, restarted };
        assert(self@ == before.after_frame(input, dt, column));
        assert(report@ == before.frame_report(input, dt, column));
        report
    }
}

} // verus!
