//! Finds what hit what, takes both away and leaves an explosion.

use vstd::prelude::*;
use crate::components::{
    EntityData, IsExplosion, Lifetime, Position, SpawnerKind,
};
use crate::geometry::{Position as Point, Rect, RectSize};
use crate::resources::PlayingGameState;
use crate::world::{
    joined_make_no_player, none_makes_a_player, pushed_makes_no_player, queue_extends,
    queue_joins, queue_nothing, Command, World, WorldView,
};

verus! {

/// Who can be hit.
#[derive(Debug, Copy, Clone, PartialEq, Eq, Structural)]
pub enum Victim {
    Alien,
    Player,
}

/// Whether the entity harms victims of kind `v` and has a place to do so.
pub open spec fn harms(d: EntityData, v: Victim) -> bool {
    d.position is Some && match v {
        Victim::Alien => d.harms_aliens is Some,
        Victim::Player => d.harms_player is Some,
    }
}

/// Whether the entity is a victim of kind `v` that can be hit now: it has a
/// place, and a player is not invincible.
pub open spec fn can_be_hit(d: EntityData, v: Victim) -> bool {
    d.position is Some && match v {
        Victim::Alien => d.is_alien is Some,
        Victim::Player => d.is_player is Some && d.invincibility is None,
    }
}

/// Whether the entity in slot `h` hits the one in slot `t`.
pub open spec fn is_hit(data: Seq<EntityData>, v: Victim, h: int, t: int) -> bool {
    &&& harms(data[h], v)
    &&& can_be_hit(data[t], v)
    &&& data[t].position->0.rect.spec_overlaps(&data[h].position->0.rect)
}

/// The hits of the entity in slot `h` on the first `t_end` slots, each as
/// the pair of harming slot and victim slot, in slot order.
pub open spec fn hits_in_row(data: Seq<EntityData>, v: Victim, h: int, t_end: nat) -> Seq<
    (usize, usize),
>
    decreases t_end,
{
    if t_end == 0 {
        Seq::empty()
    } else {
        let rest = hits_in_row(data, v, h, (t_end - 1) as nat);
        if is_hit(data, v, h, t_end - 1) {
            rest.push((h as usize, (t_end - 1) as usize))
        } else {
            rest
        }
    }
}

/// The hits of the first `h_end` slots on all slots: every pair is there
/// once, also where one entity is hit by several or hits several.
pub open spec fn hits(data: Seq<EntityData>, v: Victim, h_end: nat) -> Seq<(usize, usize)>
    decreases h_end,
{
    if h_end == 0 {
        Seq::empty()
    } else {
        hits(data, v, (h_end - 1) as nat) + hits_in_row(data, v, h_end - 1, data.len())
    }
}

/// Every hit names two slots of the store.
pub proof fn hits_are_in_range(data: Seq<EntityData>, v: Victim, h_end: nat)
    requires
        h_end <= data.len(),
        data.len() <= usize::MAX,
    ensures
        forall|k: int|
            0 <= k < hits(data, v, h_end).len() ==> {
                let pair = #[trigger] hits(data, v, h_end)[k];
                pair.0 < data.len() && pair.1 < data.len() && is_hit(
                    data,
                    v,
                    pair.0 as int,
                    pair.1 as int,
                )
            },
    decreases h_end,
{
    if h_end > 0 {
        hits_are_in_range(data, v, (h_end - 1) as nat);
        row_is_in_range(data, v, h_end - 1, data.len());
        let earlier = hits(data, v, (h_end - 1) as nat);
        let row = hits_in_row(data, v, h_end - 1, data.len());
        assert forall|k: int| 0 <= k < hits(data, v, h_end).len() implies {
            let pair = #[trigger] hits(data, v, h_end)[k];
            pair.0 < data.len() && pair.1 < data.len() && is_hit(
                data,
                v,
                pair.0 as int,
                pair.1 as int,
            )
        } by {
            if k < earlier.len() {
                assert(hits(data, v, h_end)[k] == earlier[k]);
            } else {
                assert(hits(data, v, h_end)[k] == row[k - earlier.len()]);
            }
        }
    }
}

/// Every hit of one row names two slots of the store.
pub proof fn row_is_in_range(data: Seq<EntityData>, v: Victim, h: int, t_end: nat)
    requires
        0 <= h < data.len(),
        t_end <= data.len(),
        data.len() <= usize::MAX,
    ensures
        forall|k: int|
            0 <= k < hits_in_row(data, v, h, t_end).len() ==> {
                let pair = #[trigger] hits_in_row(data, v, h, t_end)[k];
                pair.0 == h && pair.1 < t_end && is_hit(data, v, pair.0 as int, pair.1 as int)
            },
    decreases t_end,
{
    if t_end > 0 {
        row_is_in_range(data, v, h, (t_end - 1) as nat);
        let rest = hits_in_row(data, v, h, (t_end - 1) as nat);
        assert forall|k: int| 0 <= k < hits_in_row(data, v, h, t_end).len() implies {
            let pair = #[trigger] hits_in_row(data, v, h, t_end)[k];
            pair.0 == h && pair.1 < t_end && is_hit(data, v, pair.0 as int, pair.1 as int)
        } by {
            if k < rest.len() {
                assert(hits_in_row(data, v, h, t_end)[k] == rest[k]);
            }
        }
    }
}

impl World {
    /// Whether the entity in slot `i` harms victims of kind `v`.
    pub fn slot_harms(&self, i: usize, v: Victim) -> (r: bool)
        requires
            self.wf(),
            i < self@.len(),
        ensures
            r == harms(self@.data[i as int], v),
    {
        self.position.contains(i) && match v {
            Victim::Alien => self.harms_aliens.contains(i),
            Victim::Player => self.harms_player.contains(i),
        }
    }

    /// Whether the entity in slot `i` is a victim of kind `v` that can be
    /// hit.
    pub fn slot_can_be_hit(&self, i: usize, v: Victim) -> (r: bool)
        requires
            self.wf(),
            i < self@.len(),
        ensures
            r == can_be_hit(self@.data[i as int], v),
    {
        self.position.contains(i) && match v {
            Victim::Alien => self.is_alien.contains(i),
            Victim::Player => self.is_player.contains(i) && !self.invincibility.contains(i),
        }
    }

    /// Tests every harming entity against every victim of kind `v`.
    pub fn find_hits(&self, v: Victim) -> (found: Vec<(usize, usize)>)
        requires
            self.wf(),
        ensures
            found@ == hits(self@.data, v, self@.data.len()),
            forall|k: int|
                0 <= k < found@.len() ==> {
                    let pair = #[trigger] found@[k];
                    pair.0 < self@.data.len() && pair.1 < self@.data.len() && is_hit(
                        self@.data,
                        v,
                        pair.0 as int,
                        pair.1 as int,
                    )
                },
    {
        let n = self.len();
        let mut found: Vec<(usize, usize)> = Vec::new();
        let mut h: usize = 0;
        while h < n
            invariant
                self.wf(),
                n == self@.data.len(),
                h <= n,
                found@ == hits(self@.data, v, h as nat),
            decreases n - h,
        {
            let ghost before = found@;
            if self.slot_harms(h, v) {
                let harmer = self.position.get(h).unwrap().rect;
                let mut t: usize = 0;
                while t < n
                    invariant
                        self.wf(),
                        n == self@.data.len(),
                        h < n,
                        t <= n,
                        harms(self@.data[h as int], v),
                        harmer == self@.data[h as int].position->0.rect,
                        found@ == before + hits_in_row(self@.data, v, h as int, t as nat),
                    decreases n - t,
                {
                    let ghost row = hits_in_row(self@.data, v, h as int, t as nat);
                    assert(self@.data[t as int].wf());
                    assert(self@.data[h as int].wf());
                    if self.slot_can_be_hit(t, v) {
                        let target = self.position.get(t).unwrap().rect;
                        if target.overlaps(&harmer) {
                            found.push((h, t));
                            assert((before + row).push((h, t)) =~= before + row.push((h, t)));
                        }
                    }
                    t += 1;
                }
            } else {
                proof {
                    row_without_harm(self@.data, v, h as int, n as nat);
                    assert(before + Seq::<(usize, usize)>::empty() =~= before);
                }
            }
            h += 1;
        }
        proof {
            hits_are_in_range(self@.data, v, n as nat);
        }
        found
    }
}

/// An entity that harms nobody hits nobody.
pub proof fn row_without_harm(data: Seq<EntityData>, v: Victim, h: int, t_end: nat)
    requires
        !harms(data[h], v),
    ensures
        hits_in_row(data, v, h, t_end) == Seq::<(usize, usize)>::empty(),
    decreases t_end,
{
    if t_end > 0 {
        row_without_harm(data, v, h, (t_end - 1) as nat);
    }
}

/// How long each particle of an alien's explosion glows, in microseconds.
pub const ALIEN_GLOW_MICROS: i64 = 200_000;

/// How long an alien's explosion goes on emitting, in microseconds.
pub const ALIEN_BLAST_MICROS: i64 = 100_000;

/// How long each particle of the player's explosion glows, in microseconds.
pub const PLAYER_GLOW_MICROS: i64 = 500_000;

/// How long the player's explosion goes on emitting, in microseconds.
pub const PLAYER_BLAST_MICROS: i64 = 500_000;

/// An explosion at the point `at`: a source of particles that glow for
/// `glow_micros` each, itself gone after `blast_micros`.
pub open spec fn explosion(at: Point, glow_micros: i64, blast_micros: i64) -> EntityData {
    EntityData {
        position: Some(Position { rect: Rect::spec_new(at.0 as int, at.1 as int, 0, 0) }),
        spawner_kind: Some(SpawnerKind::Fire(glow_micros)),
        lifetime: Some(Lifetime { micros: blast_micros }),
        is_explosion: Some(IsExplosion),
        ..EntityData::spec_empty()
    }
}

/// Builds an explosion.
pub fn make_explosion(at: Point, glow_micros: i64, blast_micros: i64) -> (d: EntityData)
    ensures
        d == explosion(at, glow_micros, blast_micros),
        d.wf(),
{
    let mut d = EntityData::empty();
    d.position = Some(Position { rect: Rect::new(at, RectSize(0, 0)) });
    d.spawner_kind = Some(SpawnerKind::Fire(glow_micros));
    d.lifetime = Some(Lifetime { micros: blast_micros });
    d.is_explosion = Some(IsExplosion);
    d
}

/// The deletions that the first `n` hits call for: both entities of each
/// hit, the alien before what hit it, the player after what hit it. An
/// entity that takes part in several hits is named several times.
pub open spec fn hit_deletes(w: WorldView, v: Victim, pairs: Seq<(usize, usize)>, n: nat) -> Seq<
    Command,
>
    decreases n,
{
    if n == 0 {
        Seq::empty()
    } else {
        let rest = hit_deletes(w, v, pairs, (n - 1) as nat);
        let harmer = Command::Delete(w.entity_at(pairs[n - 1].0 as int));
        let victim = Command::Delete(w.entity_at(pairs[n - 1].1 as int));
        match v {
            Victim::Alien => rest.push(victim).push(harmer),
            Victim::Player => rest.push(harmer).push(victim),
        }
    }
}

/// How long each particle of the explosion of a victim of kind `v` glows,
/// in microseconds.
pub open spec fn glow_of(v: Victim) -> i64 {
    match v {
        Victim::Alien => ALIEN_GLOW_MICROS,
        Victim::Player => PLAYER_GLOW_MICROS,
    }
}

/// How long the explosion of a victim of kind `v` goes on emitting, in
/// microseconds.
pub open spec fn blast_of(v: Victim) -> i64 {
    match v {
        Victim::Alien => ALIEN_BLAST_MICROS,
        Victim::Player => PLAYER_BLAST_MICROS,
    }
}

/// One explosion for each of the first `n` hits on victims of kind `v`, at
/// the top-left corner of the victim. A victim that is hit several times
/// leaves several explosions in the same place.
pub open spec fn explosions(w: WorldView, v: Victim, pairs: Seq<(usize, usize)>, n: nat) -> Seq<
    Command,
>
    decreases n,
{
    if n == 0 {
        Seq::empty()
    } else {
        explosions(w, v, pairs, (n - 1) as nat).push(
            Command::Create(
                explosion(
                    w.data[pairs[n - 1].1 as int].position->0.rect.topleft,
                    glow_of(v),
                    blast_of(v),
                ),
            ),
        )
    }
}

/// Deleting makes no player.
pub proof fn hit_deletes_make_no_player(
    w: WorldView,
    v: Victim,
    pairs: Seq<(usize, usize)>,
    n: nat,
)
    ensures
        none_makes_a_player(hit_deletes(w, v, pairs, n)),
    decreases n,
{
    if n > 0 {
        hit_deletes_make_no_player(w, v, pairs, (n - 1) as nat);
        let rest = hit_deletes(w, v, pairs, (n - 1) as nat);
        let harmer = Command::Delete(w.entity_at(pairs[n - 1].0 as int));
        let victim = Command::Delete(w.entity_at(pairs[n - 1].1 as int));
        match v {
            Victim::Alien => {
                pushed_makes_no_player(rest, victim);
                pushed_makes_no_player(rest.push(victim), harmer);
            },
            Victim::Player => {
                pushed_makes_no_player(rest, harmer);
                pushed_makes_no_player(rest.push(harmer), victim);
            },
        }
    }
}

/// No explosion is a player.
pub proof fn explosions_make_no_player(w: WorldView, v: Victim, pairs: Seq<(usize, usize)>, n: nat)
    ensures
        none_makes_a_player(explosions(w, v, pairs, n)),
    decreases n,
{
    if n > 0 {
        explosions_make_no_player(w, v, pairs, (n - 1) as nat);
        pushed_makes_no_player(
            explosions(w, v, pairs, (n - 1) as nat),
            explosions(w, v, pairs, n).last(),
        );
    }
}

/// Nothing that collisions call for makes a player.
pub proof fn collisions_make_no_player(w: WorldView)
    ensures
        none_makes_a_player(collision_commands(w)),
{
    let alien_hits = hits(w.data, Victim::Alien, w.data.len());
    let player_hits = hits(w.data, Victim::Player, w.data.len());
    let a = hit_deletes(w, Victim::Alien, alien_hits, alien_hits.len());
    let b = explosions(w, Victim::Alien, alien_hits, alien_hits.len());
    let c = hit_deletes(w, Victim::Player, player_hits, player_hits.len());
    let d = explosions(w, Victim::Player, player_hits, player_hits.len());
    hit_deletes_make_no_player(w, Victim::Alien, alien_hits, alien_hits.len());
    explosions_make_no_player(w, Victim::Alien, alien_hits, alien_hits.len());
    hit_deletes_make_no_player(w, Victim::Player, player_hits, player_hits.len());
    explosions_make_no_player(w, Victim::Player, player_hits, player_hits.len());
    joined_make_no_player(a, b);
    joined_make_no_player(a + b, c);
    joined_make_no_player(a + b + c, d);
}

/// Everything that the collisions of one frame call for: the deletions
/// and then the explosions of the hits on aliens, and after them those of
/// the hits on the player.
pub open spec fn collision_commands(w: WorldView) -> Seq<Command> {
    let alien_hits = hits(w.data, Victim::Alien, w.data.len());
    let player_hits = hits(w.data, Victim::Player, w.data.len());
    hit_deletes(w, Victim::Alien, alien_hits, alien_hits.len()) + explosions(
        w,
        Victim::Alien,
        alien_hits,
        alien_hits.len(),
    ) + hit_deletes(w, Victim::Player, player_hits, player_hits.len()) + explosions(
        w,
        Victim::Player,
        player_hits,
        player_hits.len(),
    )
}

/// The store after the collisions of one frame were dealt with: one point
/// for every hit on an alien, and the deletions and explosions queued.
pub open spec fn collided(w: WorldView) -> WorldView {
    (WorldView {
        playing_state: PlayingGameState {
            score: PlayingGameState::score_after(
                w.playing_state.score,
                hits(w.data, Victim::Alien, w.data.len()).len(),
            ),
            ..w.playing_state
        },
        ..w
    }).queue_all(collision_commands(w))
}

/// Whether every pair names two slots of the store that have a position.
pub open spec fn pairs_in_range(w: WorldView, pairs: Seq<(usize, usize)>) -> bool {
    forall|k: int|
        0 <= k < pairs.len() ==> {
            let pair = #[trigger] pairs[k];
            &&& pair.0 < w.data.len()
            &&& pair.1 < w.data.len()
            &&& w.data[pair.1 as int].position is Some
        }
}

impl World {
    /// Queues the deletions that the hits call for.
    pub fn queue_hit_deletes(&mut self, v: Victim, pairs: &Vec<(usize, usize)>)
        requires
            old(self).wf(),
            pairs_in_range(old(self)@, pairs@),
        ensures
            final(self).wf(),
            final(self)@ == old(self)@.queue_all(
                hit_deletes(old(self)@, v, pairs@, pairs@.len()),
            ),
    {
        let n = pairs.len();
        let mut k: usize = 0;
        proof {
            queue_nothing(old(self)@);
        }
        while k < n
            invariant
                self.wf(),
                n == pairs@.len(),
                k <= n,
                pairs_in_range(old(self)@, pairs@),
                self@ == old(self)@.queue_all(hit_deletes(old(self)@, v, pairs@, k as nat)),
            decreases n - k,
        {
            let ghost so_far = hit_deletes(old(self)@, v, pairs@, k as nat);
            let pair = pairs[k];
            assert(pairs@[k as int].0 < old(self)@.data.len());
            let harmer = Command::Delete(self.entities.handle(pair.0));
            let victim = Command::Delete(self.entities.handle(pair.1));
            let (first, second) = match v {
                Victim::Alien => (victim, harmer),
                Victim::Player => (harmer, victim),
            };
            self.queue(first);
            self.queue(second);
            proof {
                queue_extends(old(self)@, so_far, first);
                queue_extends(old(self)@, so_far.push(first), second);
            }
            k += 1;
        }
    }

    /// Queues one explosion for every hit on a victim of kind `v`.
    pub fn queue_explosions(&mut self, v: Victim, pairs: &Vec<(usize, usize)>)
        requires
            old(self).wf(),
            pairs_in_range(old(self)@, pairs@),
        ensures
            final(self).wf(),
            final(self)@ == old(self)@.queue_all(
                explosions(old(self)@, v, pairs@, pairs@.len()),
            ),
    {
        let (glow, blast) = match v {
            Victim::Alien => (ALIEN_GLOW_MICROS, ALIEN_BLAST_MICROS),
            Victim::Player => (PLAYER_GLOW_MICROS, PLAYER_BLAST_MICROS),
        };
        let n = pairs.len();
        let mut k: usize = 0;
        proof {
            queue_nothing(old(self)@);
        }
        while k < n
            invariant
                self.wf(),
                n == pairs@.len(),
                k <= n,
                pairs_in_range(old(self)@, pairs@),
                glow == glow_of(v),
                blast == blast_of(v),
                self@ == old(self)@.queue_all(explosions(old(self)@, v, pairs@, k as nat)),
            decreases n - k,
        {
            let ghost so_far = explosions(old(self)@, v, pairs@, k as nat);
            let pair = pairs[k];
            assert(pairs@[k as int].1 < old(self)@.data.len());
            let at = self.position.get(pair.1).unwrap().rect.topleft;
            let burst = make_explosion(at, glow, blast);
            self.queue(Command::Create(burst));
            proof {
                queue_extends(old(self)@, so_far, Command::Create(burst));
            }
            k += 1;
        }
    }

    /// Adds `points` points to the score.
    pub fn add_points(&mut self, points: usize)
        requires
            old(self).wf(),
        ensures
            final(self).wf(),
            final(self)@ == (WorldView {
                playing_state: PlayingGameState {
                    score: PlayingGameState::score_after(
                        old(self)@.playing_state.score,
                        points as nat,
                    ),
                    ..old(self)@.playing_state
                },
                ..old(self)@
            }),
    {
        let mut state = self.playing_state;
        let room: u32 = u32::MAX - state.score;
        if points >= room as usize {
            state.score = u32::MAX;
        } else {
            state.score = state.score + points as u32;
        }
        self.set_playing_state(state);
    }
}

/// The system that deals with what hit what.
pub struct CollisionChecker;

impl CollisionChecker {
    /// Tests harming entities against their victims. Every hit on an alien
    /// scores a point. What was hit and what hit it is queued for deletion,
    /// and one explosion is queued for every hit.
    pub fn run(&mut self, world: &mut World)
        requires
            old(world).wf(),
        ensures
            final(world).wf(),
            final(world)@ == collided(old(world)@),
            final(world)@.playing_state.score == PlayingGameState::score_after(
                old(world)@.playing_state.score,
                hits(old(world)@.data, Victim::Alien, old(world)@.data.len()).len(),
            ),
    {
        let ghost start = world@;
        let alien_hits = world.find_hits(Victim::Alien);
        let player_hits = world.find_hits(Victim::Player);
        assert(pairs_in_range(start, alien_hits@));
        assert(pairs_in_range(start, player_hits@));
        world.add_points(alien_hits.len());
        let ghost scored = world@;
        assert(pairs_in_range(scored, alien_hits@));
        assert(pairs_in_range(scored, player_hits@));
        world.queue_hit_deletes(Victim::Alien, &alien_hits);
        world.queue_explosions(Victim::Alien, &alien_hits);
        world.queue_hit_deletes(Victim::Player, &player_hits);
        world.queue_explosions(Victim::Player, &player_hits);
        proof {
            let a = hit_deletes(start, Victim::Alien, alien_hits@, alien_hits@.len());
            let b = explosions(start, Victim::Alien, alien_hits@, alien_hits@.len());
            let c = hit_deletes(start, Victim::Player, player_hits@, player_hits@.len());
            let d = explosions(start, Victim::Player, player_hits@, player_hits@.len());
            same_commands(start, scored, alien_hits@, alien_hits@.len());
            same_commands(start, scored, player_hits@, player_hits@.len());
            let after_a = scored.queue_all(a);
            let after_b = after_a.queue_all(b);
            let after_c = after_b.queue_all(c);
            same_commands(scored, after_a, alien_hits@, alien_hits@.len());
            same_commands(scored, after_b, player_hits@, player_hits@.len());
            same_commands(scored, after_c, player_hits@, player_hits@.len());
            queue_joins(scored, a, b);
            queue_joins(scored, a + b, c);
            queue_joins(scored, a + b + c, d);
            assert(world@ == scored.queue_all(a + b + c + d));
        }
    }
}

/// What the hits call for depends on the slots' generations and components
/// only: two stores that agree on those call for the same commands.
pub proof fn same_commands(w1: WorldView, w2: WorldView, pairs: Seq<(usize, usize)>, n: nat)
    requires
        w1.data == w2.data,
        w1.generations == w2.generations,
    ensures
        hit_deletes(w1, Victim::Alien, pairs, n) == hit_deletes(w2, Victim::Alien, pairs, n),
        hit_deletes(w1, Victim::Player, pairs, n) == hit_deletes(w2, Victim::Player, pairs, n),
        explosions(w1, Victim::Alien, pairs, n) == explosions(w2, Victim::Alien, pairs, n),
        explosions(w1, Victim::Player, pairs, n) == explosions(w2, Victim::Player, pairs, n),
    decreases n,
{
    if n > 0 {
        same_commands(w1, w2, pairs, (n - 1) as nat);
    }
}

} // verus!
