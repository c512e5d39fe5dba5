//! Movement: the player slides along the bottom of the field between the
//! side walls, and every bug falls straight down at its own speed.

use vstd::prelude::*;
use crate::geometry::Rect;
use crate::units::PLAYER_MAX_X;
use crate::world::{Bug, Mode, Player, World, WorldView};

verus! {

/// Steering from the two arrow keys: `-1` for left, `1` for right, and `0`
/// when neither or both are held.
pub open spec fn direction_of(left: bool, right: bool) -> int {
    (if right { 1int } else { 0int }) - (if left { 1int } else { 0int })
}

/// `x` brought into the range from `low` to `high`.
pub open spec fn clamped(x: int, low: int, high: int) -> int {
    if x < low {
        low
    } else if x > high {
        high
    } else {
        x
    }
}

/// Horizontal position of a player after `dt` microseconds of steering:
/// the distance travelled is added and the result kept between the walls.
pub open spec fn steered_x(x: int, speed: nat, dt: nat, direction: int) -> int {
    clamped(x + dt * direction * speed, -PLAYER_MAX_X, PLAYER_MAX_X as int)
}

/// Height of a bug after falling for `dt` microseconds. Nothing stops a bug
/// at the bottom of the field; it only cannot fall below the lowest height
/// that a position can hold.
pub open spec fn fallen_y(y: int, speed: nat, dt: nat) -> int {
    if y - dt * speed >= i64::MIN {
        y - dt * speed
    } else {
        i64::MIN as int
    }
}

impl Player {
    /// The player after `dt` microseconds of steering.
    pub open spec fn steered(self, dt: u64, left: bool, right: bool) -> Player {
        Player {
            rect: Rect {
                x: steered_x(
                    self.rect.x as int,
                    self.speed as nat,
                    dt as nat,
                    direction_of(left, right),
                ) as i64,
                ..self.rect
            },
            ..self
        }
    }
}

impl Bug {
    /// The bug after falling for `dt` microseconds.
    pub open spec fn fallen(self, dt: u64) -> Bug {
        Bug {
            rect: Rect {
                y: fallen_y(self.rect.y as int, self.speed as nat, dt as nat) as i64,
                ..self.rect
            },
            ..self
        }
    }

    /// Lets the bug fall for `dt` microseconds.
    pub fn fall(&mut self, dt: u64)
        ensures
            *final(self) == old(self).fallen(dt),
    {
        let drop: u128 = travelled(dt, self.speed);
        let room: u128 = (self.rect.y as i128 - i64::MIN as i128) as u128;
        if drop <= room {
            self.rect.y = (self.rect.y as i128 - drop as i128) as i64;
        } else {
            self.rect.y = i64::MIN;
        }
    }
}

impl WorldView {
    /// The world after the player has steered for `dt` microseconds. The
    /// player stands still unless the round is running.
    pub open spec fn after_player_move(self, dt: u64, left: bool, right: bool) -> WorldView {
        if self.mode != Mode::Play {
            self
        } else {
            WorldView { player: self.player.steered(dt, left, right), ..self }
        }
    }

    /// The world after every bug has fallen for `dt` microseconds. The bugs
    /// hang still unless the round is running.
    pub open spec fn after_bug_move(self, dt: u64) -> WorldView {
        if self.mode != Mode::Play {
            self
        } else {
            WorldView { bugs: self.bugs.map_values(|bug: Bug| bug.fallen(dt)), ..self }
        }
    }

    /// The world after the movement of one frame: first the player, then the
    /// bugs.
    pub open spec fn after_integration(self, dt: u64, left: bool, right: bool) -> WorldView {
        self.after_player_move(dt, left, right).after_bug_move(dt)
    }

    /// Whether the player stands between the side walls.
    pub open spec fn player_in_bounds(self) -> bool {
        -PLAYER_MAX_X <= self.player.rect.x <= PLAYER_MAX_X
    }
}

/// The player stands between the side walls after the movement of a frame,
/// however long the frame was and whichever keys were held. While a round
/// runs this holds wherever the player stood before; once it has ended the
/// player does not move, so it holds if it held before.
pub proof fn lemma_player_stays_between_walls(world: WorldView, dt: u64, left: bool, right: bool)
    requires
        world.mode == Mode::Play || world.player_in_bounds(),
    ensures
        world.after_integration(dt, left, right).player_in_bounds(),
{
}

/// Unless a round runs, the movement of a frame changes nothing: the player
/// and every bug stay where they are.
pub proof fn lemma_no_movement_unless_playing(world: WorldView, dt: u64, left: bool, right: bool)
    requires
        world.mode != Mode::Play,
    ensures
        world.after_integration(dt, left, right) == world,
{
}

/// A bug moves straight down and nowhere else: it keeps its column, its
/// size and its speed, never rises, and sinks in every frame that takes time
/// unless it has no speed or is as low as a position can be.
pub proof fn lemma_bugs_only_fall(bug: Bug, dt: u64)
    ensures
        bug.fallen(dt).rect.x == bug.rect.x,
        bug.fallen(dt).rect.width == bug.rect.width,
        bug.fallen(dt).rect.height == bug.rect.height,
        bug.fallen(dt).speed == bug.speed,
        bug.fallen(dt).rect.y <= bug.rect.y,
        dt > 0 && bug.speed > 0 && bug.rect.y > i64::MIN ==> bug.fallen(dt).rect.y < bug.rect.y,
{
    assert(dt * bug.speed >= 0) by (nonlinear_arith);
    assert(dt > 0 && bug.speed > 0 ==> dt * bug.speed > 0) by (nonlinear_arith);
}

/// Distance covered in `dt` microseconds at `speed` units per microsecond.
fn travelled(dt: u64, speed: u64) -> (covered: u128)
    ensures
        covered == dt * speed,
{
    assert(dt * speed <= 0xffff_ffff_ffff_ffff * 0xffff_ffff_ffff_ffff) by (nonlinear_arith)
        requires
            dt <= 0xffff_ffff_ffff_ffff,
            speed <= 0xffff_ffff_ffff_ffff,
    ;
    dt as u128 * speed as u128
}

/// Reads the two arrow keys as a direction.
pub fn direction(left: bool, right: bool) -> (d: i8)
    ensures
        d == direction_of(left, right),
{
    let mut d: i8 = 0;
    if left {
        d = d - 1;
    }
    if right {
        d = d + 1;
    }
    d
}

impl World {
    /// Moves the player for `dt` microseconds in the direction that the keys
    /// give and keeps it between the side walls. The position is brought
    /// between the walls even when no key is held.
    pub fn move_player(&mut self, dt: u64, left: bool, right: bool)
        ensures
            final(self)@ == old(self)@.after_player_move(dt, left, right),
            old(self).mode == Mode::Play ==> final(self)@.player_in_bounds(),
            old(self).mode != Mode::Play ==> final(self)@ == old(self)@,
    {
        if self.mode != Mode::Play {
            return ;
        }
        let d = direction(left, right);
        let travel: u128 = travelled(dt, self.player.speed);
        let x = self.player.rect.x;
        proof {
            let t = dt as int * self.player.speed as int;
            assert(d == 0 ==> dt * (d as int) * self.player.speed == 0) by (nonlinear_arith);
            assert(d == 1 ==> dt * (d as int) * self.player.speed == t) by (nonlinear_arith)
                requires
                    t == dt as int * self.player.speed as int,
            ;
            assert(d == -1 ==> dt * (d as int) * self.player.speed == -t) by (nonlinear_arith)
                requires
                    t == dt as int * self.player.speed as int,
            ;
        }
        let reached: i128 = if d == 0 {
            x as i128
        } else if travel > 0xffff_ffff_ffff_ffff {
            if d > 0 {
                PLAYER_MAX_X as i128
            } else {
                -PLAYER_MAX_X as i128
            }
        } else if d > 0 {
            x as i128 + travel as i128
        } else {
            x as i128 - travel as i128
        };
        self.player.rect.x = if reached > PLAYER_MAX_X as i128 {
            PLAYER_MAX_X
        } else if reached < -PLAYER_MAX_X as i128 {
            -PLAYER_MAX_X
        } else {
            reached as i64
        };
    }

    /// Lets every bug fall for `dt` microseconds.
    pub fn move_bugs(&mut self, dt: u64)
        ensures
            final(self)@ == old(self)@.after_bug_move(dt),
            old(self).mode != Mode::Play ==> final(self)@ == old(self)@,
    {
        if self.mode != Mode::Play {
            return ;
        }
        let ghost before = self@;
        let mut i: usize = 0;
        while i < self.bugs.len()
            invariant
                i <= self.bugs.len(),
                self.bugs.len() == before.bugs.len(),
                self.mode == before.mode,
                self.score == before.score,
                self.scheduler == before.scheduler,
                self.player == before.player,
                self.walls@ == before.walls,
                forall|j: int| 0 <= j < i ==> self.bugs[j] == (#[trigger] before.bugs[j]).fallen(dt),
                forall|j: int| i <= j < self.bugs.len() ==> self.bugs[j] == before.bugs[j],
            decreases self.bugs.len() - i,
        {
            let mut bug = self.bugs[i];
            bug.fall(dt);
            self.bugs.set(i, bug);
            i += 1;
        }
        assert(self.bugs@ == before.bugs.map_values(|bug: Bug| bug.fallen(dt)));
    }

    /// The movement of one frame of `dt` microseconds: the player, then the
    /// bugs. Only positions change, and only while the round runs.
    pub fn integrate(&mut self, dt: u64, left: bool, right: bool)
        ensures
            final(self)@ == old(self)@.after_integration(dt, left, right),
            old(self).mode == Mode::Play ==> final(self)@.player_in_bounds(),
            old(self).mode != Mode::Play ==> final(self)@ == old(self)@,
    {
        self.move_player(dt, left, right);
        self.move_bugs(dt);
    }
}

} // verus!
