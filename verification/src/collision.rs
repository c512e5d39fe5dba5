//! Collision and scoring: every bug is tested against the player and the
//! walls, and the first collider it overlaps decides what happens to it.

use vstd::prelude::*;
use crate::geometry::Rect;
use crate::world::{Bug, Mode, Role, Wall, World, WorldView};

verus! {

/// Role of the first wall at index `from` or later that has a role and
/// overlaps `bug`; `None` when there is no such wall.
pub open spec fn wall_hit(bug: Rect, walls: Seq<Wall>, from: int) -> Option<Role>
    decreases walls.len() - from,
{
    if from < 0 || from >= walls.len() {
        None
    } else if walls[from].role is Some && bug.overlaps(walls[from].rect) {
        walls[from].role
    } else {
        wall_hit(bug, walls, from + 1)
    }
}

/// Role of the first collider that `bug` overlaps. The player, who carries
/// the role [`Role::Death`], is tested before the walls, and the walls in
/// their order in the store.
pub open spec fn first_hit(bug: Rect, player: Rect, walls: Seq<Wall>) -> Option<Role> {
    if bug.overlaps(player) {
        Some(Role::Death)
    } else {
        wall_hit(bug, walls, 0)
    }
}

/// A score after `points` more points; it stops at the largest `u32`.
pub open spec fn add_points(score: u32, points: nat) -> u32 {
    if score + points <= u32::MAX {
        (score + points) as u32
    } else {
        u32::MAX
    }
}

impl WorldView {
    /// What the collision pass decides for `bug`.
    pub open spec fn hit(self, bug: Bug) -> Option<Role> {
        first_hit(bug.rect, self.player.rect, self.walls)
    }

    /// Whether the collision pass leaves a bug in the store: every bug stays
    /// but those that score.
    pub open spec fn survives(self) -> spec_fn(Bug) -> bool {
        |bug: Bug| self.hit(bug) != Some(Role::Scorable)
    }

    /// Whether an index names a bug that scores.
    pub open spec fn scores(self) -> spec_fn(int) -> bool {
        |i: int| 0 <= i < self.bugs.len() && self.hit(self.bugs[i]) == Some(Role::Scorable)
    }

    /// Indices into `bugs`, in increasing order, of the bugs that score.
    pub open spec fn scoring(self) -> Seq<int> {
        Seq::new(self.bugs.len(), |i: int| i).filter(self.scores())
    }

    /// Whether a collision pass would find no bug to remove.
    pub open spec fn settled(self) -> bool {
        forall|i: int|
            0 <= i < self.bugs.len() ==> #[trigger] self.hit(self.bugs[i]) != Some(Role::Scorable)
    }

    /// Whether some bug has reached the player.
    pub open spec fn player_caught(self) -> bool {
        exists|i: int| 0 <= i < self.bugs.len() && #[trigger] self.hit(self.bugs[i]) == Some(Role::Death)
    }

    /// The world after one collision pass: the scoring bugs are gone and each
    /// has added a point; a bug that reached the player has ended the round
    /// and stays where it is.
    pub open spec fn after_collisions(self) -> WorldView {
        WorldView {
            mode: if self.player_caught() { Mode::Stop } else { self.mode },
            score: add_points(self.score, self.scoring().len()),
            bugs: self.bugs.filter(self.survives()),
            ..self
        }
    }
}

/// A list of indices as mathematical integers.
pub open spec fn indices_of(list: Seq<usize>) -> Seq<int> {
    list.map_values(|i: usize| i as int)
}

/// Filtering one more element of a sequence appends it to the filtered
/// prefix or leaves the filtered prefix as it is.
proof fn lemma_filter_next<A>(s: Seq<A>, keep: spec_fn(A) -> bool, i: int)
    requires
        0 <= i < s.len(),
    ensures
        s.take(i + 1).filter(keep) == if keep(s[i]) {
            s.take(i).filter(keep).push(s[i])
        } else {
            s.take(i).filter(keep)
        },
{
    assert(s.take(i + 1) == s.take(i).push(s[i]));
    s.take(i).lemma_filter_push(s[i], keep);
}

/// The fates of the first `n` bugs: those that score and those that stay
/// are `n` together, and the indices of those that score are below `n`, in
/// increasing order, and name scoring bugs.
proof fn lemma_fates_of_prefix(world: WorldView, n: int)
    requires
        0 <= n <= world.bugs.len(),
    ensures
        ({
            let indices = Seq::new(world.bugs.len(), |i: int| i);
            let gone = indices.take(n).filter(world.scores());
            let kept = world.bugs.take(n).filter(world.survives());
            &&& gone.len() + kept.len() == n
            &&& forall|j: int|
                0 <= j < gone.len() ==> 0 <= #[trigger] gone[j] < n && (world.scores())(gone[j])
            &&& forall|j: int, k: int| 0 <= j < k < gone.len() ==> gone[j] < gone[k]
        }),
    decreases n,
{
    let indices = Seq::new(world.bugs.len(), |i: int| i);
    if n == 0 {
        assert(indices.take(0).filter(world.scores()).len() == 0) by {
            indices.take(0).lemma_filter_len(world.scores());
        }
        assert(world.bugs.take(0).filter(world.survives()).len() == 0) by {
            world.bugs.take(0).lemma_filter_len(world.survives());
        }
    } else {
        lemma_fates_of_prefix(world, n - 1);
        lemma_filter_next(indices, world.scores(), n - 1);
        lemma_filter_next(world.bugs, world.survives(), n - 1);
    }
}

/// A collision pass does one thing to each bug and does it once: the bug
/// either scores and is removed or stays in the store. No index is reported
/// twice, so a bug that overlaps several scoring colliders at once still
/// scores a single point, and a pass adds at most one point per bug.
pub proof fn lemma_one_action_per_bug(world: WorldView)
    ensures
        world.scoring().len() + world.after_collisions().bugs.len() == world.bugs.len(),
        forall|j: int|
            0 <= j < world.scoring().len() ==> 0 <= #[trigger] world.scoring()[j]
                < world.bugs.len() && world.hit(world.bugs[world.scoring()[j]]) == Some(
                Role::Scorable,
            ),
        forall|j: int, k: int|
            0 <= j < k < world.scoring().len() ==> world.scoring()[j] < world.scoring()[k],
        world.score <= world.after_collisions().score <= world.score + world.bugs.len(),
{
    let indices = Seq::new(world.bugs.len(), |i: int| i);
    lemma_fates_of_prefix(world, world.bugs.len() as int);
    assert(indices.take(world.bugs.len() as int) == indices);
    assert(world.bugs.take(world.bugs.len() as int) == world.bugs);
}

/// From any index up to that of a wall with a role that a rectangle
/// overlaps, the search of the walls finds a hit.
proof fn lemma_wall_is_found(bug: Rect, walls: Seq<Wall>, from: int, wall: int)
    requires
        0 <= from <= wall < walls.len(),
        walls[wall].role is Some,
        bug.overlaps(walls[wall].rect),
    ensures
        wall_hit(bug, walls, from) is Some,
    decreases wall - from,
{
    if from < wall && !(walls[from].role is Some && bug.overlaps(walls[from].rect)) {
        lemma_wall_is_found(bug, walls, from + 1, wall);
    }
}

/// A bug that overlaps a wall with a role does not pass unnoticed: the pass
/// decides on it, by that wall or by a collider tested before it.
pub proof fn lemma_overlap_is_a_hit(world: WorldView, bug: Bug, wall: int)
    requires
        0 <= wall < world.walls.len(),
        world.walls[wall].role is Some,
        bug.rect.overlaps(world.walls[wall].rect),
    ensures
        world.hit(bug) is Some,
{
    lemma_wall_is_found(bug.rect, world.walls, 0, wall);
}

/// A single bug meets exactly one of three fates, decided by the first
/// collider it overlaps, whatever else it overlaps as well. Where that is a
/// collider of death the round ends, the bug stays and nothing is scored;
/// where it is a scoring collider the bug goes, one removal is reported and
/// one point is added, and the mode stays as it was; and a bug in the open
/// changes nothing. So a pass never ends the round and scores on the same
/// bug. The point is a full point unless the score stands at the largest
/// `u32` already.
pub proof fn lemma_single_bug_single_action(world: WorldView)
    requires
        world.bugs.len() == 1,
    ensures
        world.hit(world.bugs[0]) == Some(Role::Death) ==> world.after_collisions() == (WorldView {
            mode: Mode::Stop,
            ..world
        }) && world.scoring().len() == 0,
        world.hit(world.bugs[0]) == Some(Role::Scorable) ==> world.after_collisions()
            == (WorldView {
            score: add_points(world.score, 1),
            bugs: Seq::empty(),
            ..world
        }) && world.scoring() == seq![0int],
        world.hit(world.bugs[0]) is None ==> world.after_collisions() == world
            && world.scoring().len() == 0,
        world.score < u32::MAX ==> add_points(world.score, 1) == world.score + 1,
        world.after_collisions().mode != world.mode ==> world.after_collisions().score
            == world.score && world.after_collisions().bugs == world.bugs
            && world.scoring().len() == 0,
        world.mode == Mode::Play && world.hit(world.bugs[0]) is Some && world.score < u32::MAX ==> (
        world.after_collisions().mode == Mode::Stop && world.after_collisions().score
            == world.score && world.after_collisions().bugs == world.bugs && world.scoring().len()
            == 0) || (world.after_collisions().mode == Mode::Play
            && world.after_collisions().score == world.score + 1
            && world.after_collisions().bugs.len() == 0 && world.scoring().len() == 1),
{
    let indices = Seq::new(1, |i: int| i);
    let bug = world.bugs[0];
    lemma_filter_next(indices, world.scores(), 0);
    lemma_filter_next(world.bugs, world.survives(), 0);
    indices.take(0).lemma_filter_len(world.scores());
    world.bugs.take(0).lemma_filter_len(world.survives());
    assert(indices.take(1) == indices);
    assert(world.bugs.take(1) == world.bugs);
    assert(indices.take(0).filter(world.scores()).len() == 0);
    assert(world.bugs.take(0).filter(world.survives()).len() == 0);
    if world.hit(bug) == Some(Role::Death) {
        assert(world.player_caught());
    } else {
        assert(!world.player_caught());
    }
    if world.hit(bug) == Some(Role::Scorable) {
        assert(world.scoring() == seq![0int]);
        assert(world.scoring().len() == 1);
        assert(world.bugs.filter(world.survives()) == Seq::<Bug>::empty());
    } else {
        assert(world.bugs.filter(world.survives()) == world.bugs);
        assert(world.scoring().len() == 0);
    }
    if world.hit(bug) is Some && world.hit(bug) != Some(Role::Death) {
        assert(world.hit(bug) == Some(Role::Scorable));
    }
}

/// In a settled world the first `n` bugs all stay and none of them scores.
proof fn lemma_settled_prefix(world: WorldView, n: int)
    requires
        world.settled(),
        0 <= n <= world.bugs.len(),
    ensures
        world.bugs.take(n).filter(world.survives()) == world.bugs.take(n),
        Seq::new(world.bugs.len(), |i: int| i).take(n).filter(world.scores()).len() == 0,
    decreases n,
{
    let indices = Seq::new(world.bugs.len(), |i: int| i);
    if n == 0 {
        indices.take(0).lemma_filter_len(world.scores());
        world.bugs.take(0).lemma_filter_len(world.survives());
    } else {
        lemma_settled_prefix(world, n - 1);
        lemma_filter_next(indices, world.scores(), n - 1);
        lemma_filter_next(world.bugs, world.survives(), n - 1);
        assert(world.hit(world.bugs[n - 1]) != Some(Role::Scorable));
        assert(world.bugs.take(n) == world.bugs.take(n - 1).push(world.bugs[n - 1]));
    }
}

/// A collision pass leaves nothing for the next one to remove, and in a
/// world where nothing is to be removed a pass changes at most the mode.
pub proof fn lemma_collision_pass_settles(world: WorldView)
    ensures
        world.after_collisions().settled(),
        world.settled() ==> world.after_collisions() == (WorldView {
            mode: world.after_collisions().mode,
            ..world
        }),
        world.settled() ==> world.scoring().len() == 0,
{
    let after = world.after_collisions();
    assert forall|i: int| 0 <= i < after.bugs.len() implies #[trigger] after.hit(after.bugs[i])
        != Some(Role::Scorable) by {
        world.bugs.lemma_filter_pred(world.survives(), i);
    }
    if world.settled() {
        lemma_settled_prefix(world, world.bugs.len() as int);
        assert(world.bugs.take(world.bugs.len() as int) == world.bugs);
        let indices = Seq::new(world.bugs.len(), |i: int| i);
        assert(indices.take(world.bugs.len() as int) == indices);
    }
}

/// A bug that overlaps the player ends the round and is left alone, even
/// where it overlaps a scoring wall as well: the player is tested first.
pub proof fn lemma_player_is_tested_first(world: WorldView, bug: Bug)
    requires
        bug.rect.overlaps(world.player.rect),
    ensures
        world.hit(bug) == Some(Role::Death),
        (world.survives())(bug),
{
}

impl World {
    /// Tests one bug against the player and then the walls, and stops at the
    /// first overlap.
    pub fn first_hit(&self, bug: &Bug) -> (hit: Option<Role>)
        ensures
            hit == self@.hit(*bug),
    {
        if bug.rect.overlaps(self.player.rect) {
            return Some(Role::Death);
        }
        let mut i: usize = 0;
        while i < self.walls.len()
            invariant
                i <= self.walls.len(),
                !bug.rect.overlaps(self.player.rect),
                wall_hit(bug.rect, self.walls@, 0) == wall_hit(bug.rect, self.walls@, i as int),
            decreases self.walls.len() - i,
        {
            let wall = self.walls[i];
            match wall.role {
                Some(role) => {
                    if bug.rect.overlaps(wall.rect) {
                        return Some(role);
                    }
                },
                None => {},
            }
            i += 1;
        }
        None
    }

    /// Runs the collision pass, whatever the mode. Returns the indices that
    /// the removed bugs had before the call, in increasing order; the caller
    /// owes one scoring sound for each.
    pub fn resolve_collisions(&mut self) -> (despawned: Vec<usize>)
        ensures
            final(self)@ == old(self)@.after_collisions(),
            indices_of(despawned@) == old(self)@.scoring(),
            despawned@.len() + final(self).bugs@.len() == old(self).bugs@.len(),
            final(self).score - old(self).score <= despawned@.len(),
    {
        let ghost before = self@;
        let ghost indices = Seq::new(before.bugs.len(), |i: int| i);
        let mut kept: Vec<Bug> = Vec::new();
        let mut despawned: Vec<usize> = Vec::new();
        let mut caught = false;
        let mut i: usize = 0;
        while i < self.bugs.len()
            invariant
                i <= self.bugs.len(),
                self.bugs@ == before.bugs,
                self.walls@ == before.walls,
                self.player == before.player,
                self.scheduler == before.scheduler,
                self.mode == before.mode,
                indices == Seq::new(before.bugs.len(), |i: int| i),
                kept@ == before.bugs.take(i as int).filter(before.survives()),
                indices_of(despawned@) == indices.take(i as int).filter(before.scores()),
                despawned@.len() + kept@.len() == i,
                self.score == add_points(before.score, despawned@.len()),
                caught <==> exists|j: int| 0 <= j < i && #[trigger] before.hit(before.bugs[j]) == Some(Role::Death),
            decreases self.bugs.len() - i,
        {
            let bug = self.bugs[i];
            let hit = self.first_hit(&bug);
            proof {
                lemma_filter_next(before.bugs, before.survives(), i as int);
                lemma_filter_next(indices, before.scores(), i as int);
            }
            match hit {
                Some(Role::Scorable) => {
                    assert(indices_of(despawned@.push(i)) == indices_of(despawned@).push(
                        i as int,
                    ));
                    despawned.push(i);
                    if self.score < u32::MAX {
                        self.score = self.score + 1;
                    }
                },
                Some(Role::Death) => {
                    caught = true;
                    kept.push(bug);
                },
                None => {
                    kept.push(bug);
                },
            }
            i += 1;
        }
        proof {
            assert(before.bugs.take(i as int) == before.bugs);
            assert(indices.take(i as int) == indices);
        }
        if caught {
            self.mode = Mode::Stop;
        }
        self.bugs = kept;
        despawned
    }
}

} // verus!
