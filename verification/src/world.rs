//! The entity store: registry, component storages, resources and the queue
//! of structural changes that wait for the end of the frame.

use vstd::prelude::*;
use crate::components::{
    Draw, EntityData, HarmsAliens, HarmsPlayer, Invincibility, IsAlien, IsExplosion, IsPlayer,
    KeepInside, Lifetime, MovementKind, Position, ReapWhenOutside, SpawnerKind, Sprite, Velocity,
};
use crate::entity::{
    first_free_from, first_free_is_least, handle_is_alive, handle_is_stale, Entities, Entity,
};
use crate::resources::{Arena, ControlState, ElapsedSeconds, PlayingGameState};
use crate::storage::Storage;

verus! {

/// A structural change that a system asks for. It is carried out when the
/// frame's systems have all run.
#[derive(Debug, Copy, Clone, PartialEq, Eq, Structural)]
pub enum Command {
    /// Make an entity with these components.
    Create(EntityData),
    /// Delete the entity, if it still lives.
    Delete(Entity),
    /// Take the invincibility off the entity, if it still lives.
    RemoveInvincibility(Entity),
    /// Give the entity this picture, if it still lives.
    SetSprite(Entity, Sprite),
}

impl Command {
    /// What is to be made is well formed.
    pub open spec fn wf(&self) -> bool {
        self matches Command::Create(d) ==> d.wf()
    }
}

/// The store as a mathematical value: per slot whether an entity lives
/// there, the slot's generation and the components; the resources; and the
/// commands that wait.
pub struct WorldView {
    pub alive: Seq<bool>,
    pub generations: Seq<u32>,
    pub data: Seq<EntityData>,
    pub arena: Arena,
    pub elapsed: ElapsedSeconds,
    pub control_state: ControlState,
    pub playing_state: PlayingGameState,
    pub pending: Seq<Command>,
}

impl WorldView {
    /// The three columns cover the same slots; a live slot's generation
    /// can still move on; every entity's components are well formed; a
    /// dead slot holds no component; and so are the arena and whatever
    /// waits to be made.
    pub open spec fn wf(&self) -> bool {
        &&& self.alive.len() == self.generations.len()
        &&& self.alive.len() == self.data.len()
        &&& forall|i: int|
            0 <= i < self.alive.len() && #[trigger] self.alive[i] ==> self.generations[i]
                < u32::MAX
        &&& forall|i: int| 0 <= i < self.data.len() ==> (#[trigger] self.data[i]).wf()
        &&& forall|i: int|
            0 <= i < self.data.len() && !self.alive[i] ==> #[trigger] self.data[i]
                == EntityData::spec_empty()
        &&& self.arena.0.wf()
        &&& forall|k: int| 0 <= k < self.pending.len() ==> (#[trigger] self.pending[k]).wf()
    }

    pub open spec fn len(&self) -> nat {
        self.data.len()
    }

    pub open spec fn is_alive(&self, e: Entity) -> bool {
        handle_is_alive(self.alive, self.generations, e)
    }

    /// The slot that the next new entity gets.
    pub open spec fn next_index(&self) -> int {
        first_free_from(self.alive, self.generations, 0)
    }

    /// The handle of whatever lives in slot `i`.
    pub open spec fn entity_at(&self, i: int) -> Entity {
        Entity { index: i as usize, generation: self.generations[i] }
    }

    /// The handle that the next new entity gets.
    pub open spec fn next_entity(&self) -> Entity {
        let i = self.next_index();
        Entity {
            index: i as usize,
            generation: if i < self.alive.len() {
                self.generations[i]
            } else {
                0
            },
        }
    }

    /// The store after an entity with components `d` was made.
    pub open spec fn create(self, d: EntityData) -> WorldView {
        let i = self.next_index();
        if i < self.alive.len() {
            WorldView { alive: self.alive.update(i, true), data: self.data.update(i, d), ..self }
        } else {
            WorldView {
                alive: self.alive.push(true),
                generations: self.generations.push(0),
                data: self.data.push(d),
                ..self
            }
        }
    }

    /// The store after the entity that `e` names was deleted: its slot is
    /// dead, one generation on, and holds no component. A handle that names
    /// no live entity changes nothing.
    pub open spec fn delete(self, e: Entity) -> WorldView {
        if self.is_alive(e) {
            WorldView {
                alive: self.alive.update(e.index as int, false),
                generations: self.generations.update(e.index as int, (e.generation + 1) as u32),
                data: self.data.update(e.index as int, EntityData::spec_empty()),
                ..self
            }
        } else {
            self
        }
    }

    /// The store after the invincibility was taken off the entity that `e`
    /// names, if it lives.
    pub open spec fn remove_invincibility(self, e: Entity) -> WorldView {
        if self.is_alive(e) {
            WorldView {
                data: self.data.update(
                    e.index as int,
                    EntityData { invincibility: None, ..self.data[e.index as int] },
                ),
                ..self
            }
        } else {
            self
        }
    }

    /// The store after the entity that `e` names, if it lives, was given
    /// the picture `sprite`.
    pub open spec fn set_sprite(self, e: Entity, sprite: Sprite) -> WorldView {
        if self.is_alive(e) {
            WorldView {
                data: self.data.update(
                    e.index as int,
                    EntityData { sprite: Some(sprite), ..self.data[e.index as int] },
                ),
                ..self
            }
        } else {
            self
        }
    }

    /// The store after one command was carried out.
    pub open spec fn apply(self, c: Command) -> WorldView {
        match c {
            Command::Create(d) => self.create(d),
            Command::Delete(e) => self.delete(e),
            Command::RemoveInvincibility(e) => self.remove_invincibility(e),
            Command::SetSprite(e, s) => self.set_sprite(e, s),
        }
    }

    /// The store after the first `n` commands of `cs` were carried out, in
    /// order.
    pub open spec fn apply_first(self, cs: Seq<Command>, n: nat) -> WorldView
        decreases n,
    {
        if n == 0 {
            self
        } else {
            self.apply_first(cs, (n - 1) as nat).apply(cs[n - 1])
        }
    }

    /// The store after every waiting command was carried out, in the order
    /// in which they were asked for; none waits any more.
    pub open spec fn maintained(self) -> WorldView {
        (WorldView { pending: Seq::empty(), ..self }).apply_first(self.pending, self.pending.len())
    }

    /// The store with one more command waiting.
    pub open spec fn queue(self, c: Command) -> WorldView {
        WorldView { pending: self.pending.push(c), ..self }
    }

    /// The store with `cs` waiting behind what waits already.
    pub open spec fn queue_all(self, cs: Seq<Command>) -> WorldView {
        WorldView { pending: self.pending + cs, ..self }
    }

    /// The generation of slot `i` once whatever lives there was deleted.
    pub open spec fn generation_after_delete(&self, i: int) -> u32 {
        if self.alive[i] {
            (self.generations[i] + 1) as u32
        } else {
            self.generations[i]
        }
    }

    /// The store after everything was deleted: every slot is dead and
    /// empty, the live ones a generation on, and no command waits.
    pub open spec fn cleared(self) -> WorldView {
        WorldView {
            alive: Seq::new(self.alive.len(), |i: int| false),
            generations: Seq::new(self.alive.len(), |i: int| self.generation_after_delete(i)),
            data: Seq::new(self.alive.len(), |i: int| EntityData::spec_empty()),
            pending: Seq::empty(),
            ..self
        }
    }

    /// No live entity is a player.
    pub open spec fn player_dead(&self) -> bool {
        forall|i: int| 0 <= i < self.data.len() ==> (#[trigger] self.data[i]).is_player is None
    }

    /// No live entity belongs to an explosion.
    pub open spec fn explosions_gone(&self) -> bool {
        forall|i: int| 0 <= i < self.data.len() ==> (#[trigger] self.data[i]).is_explosion is None
    }
}

/// Carrying out a well-formed command keeps the store well formed.
pub proof fn apply_keeps_wf(w: WorldView, c: Command)
    requires
        w.wf(),
        c.wf(),
    ensures
        w.apply(c).wf(),
        w.apply(c).pending == w.pending,
        w.apply(c).arena == w.arena,
        w.apply(c).elapsed == w.elapsed,
        w.apply(c).control_state == w.control_state,
        w.apply(c).playing_state == w.playing_state,
{
    first_free_is_least(w.alive, w.generations, 0);
}

/// Whether the handle `e` names a live entity or one that was deleted; it
/// is no handle out of thin air.
pub open spec fn was_issued(w: WorldView, e: Entity) -> bool {
    w.is_alive(e) || handle_is_stale(w.generations, e)
}

/// Carrying out a command never brings a deleted entity back, and
/// deleting a live entity makes its handle stale.
pub proof fn apply_keeps_handles(w: WorldView, c: Command, e: Entity)
    requires
        w.wf(),
        c.wf(),
        was_issued(w, e),
    ensures
        was_issued(w.apply(c), e),
        handle_is_stale(w.generations, e) ==> handle_is_stale(w.apply(c).generations, e),
        c == Command::Delete(e) ==> handle_is_stale(w.apply(c).generations, e),
{
    first_free_is_least(w.alive, w.generations, 0);
}

/// Carrying out the first `n` of the commands `cs` keeps the store well
/// formed and never brings a deleted entity back; where one of them
/// deletes `e`, the handle `e` is stale afterwards.
pub proof fn apply_first_keeps_handles(w: WorldView, cs: Seq<Command>, n: nat, e: Entity)
    requires
        w.wf(),
        n <= cs.len(),
        forall|k: int| 0 <= k < cs.len() ==> (#[trigger] cs[k]).wf(),
        was_issued(w, e),
    ensures
        w.apply_first(cs, n).wf(),
        was_issued(w.apply_first(cs, n), e),
        handle_is_stale(w.generations, e) ==> handle_is_stale(w.apply_first(cs, n).generations, e),
        (exists|k: int| 0 <= k < n && cs[k] == Command::Delete(e)) ==> handle_is_stale(
            w.apply_first(cs, n).generations,
            e,
        ),
    decreases n,
{
    if n > 0 {
        let earlier = w.apply_first(cs, (n - 1) as nat);
        apply_first_keeps_handles(w, cs, (n - 1) as nat, e);
        assert(cs[n - 1].wf());
        apply_keeps_wf(earlier, cs[n - 1]);
        apply_keeps_handles(earlier, cs[n - 1], e);
        if exists|k: int| 0 <= k < n && cs[k] == Command::Delete(e) {
            let k = choose|k: int| 0 <= k < n && cs[k] == Command::Delete(e);
            if k < n - 1 {
                assert(handle_is_stale(earlier.generations, e));
            }
        }
    }
}

/// A deletion that waits takes effect when the queue is carried out:
/// where the handle `e` names a live entity and its deletion is queued,
/// `e` is stale once the store was maintained, whatever else is queued
/// before or after it. Deleting is idempotent: it may be queued any number
/// of times.
pub proof fn queued_delete_takes_effect(w: WorldView, e: Entity, k: int)
    requires
        w.wf(),
        w.is_alive(e),
        0 <= k < w.pending.len(),
        w.pending[k] == Command::Delete(e),
    ensures
        w.maintained().wf(),
        handle_is_stale(w.maintained().generations, e),
        !w.maintained().is_alive(e),
{
    let base = WorldView { pending: Seq::empty(), ..w };
    assert(base.wf());
    apply_first_keeps_handles(base, w.pending, w.pending.len(), e);
}

/// An entity whose deletion nobody queued is still there when the queue
/// was carried out, with the same handle.
pub proof fn unqueued_entities_live_on(w: WorldView, e: Entity, n: nat)
    requires
        w.wf(),
        w.is_alive(e),
        n <= w.pending.len(),
        forall|k: int| 0 <= k < n ==> w.pending[k] != Command::Delete(e),
    ensures
        (WorldView { pending: Seq::empty(), ..w }).apply_first(w.pending, n).wf(),
        (WorldView { pending: Seq::empty(), ..w }).apply_first(w.pending, n).is_alive(e),
    decreases n,
{
    let base = WorldView { pending: Seq::empty(), ..w };
    assert(base.wf());
    if n > 0 {
        unqueued_entities_live_on(w, e, (n - 1) as nat);
        let earlier = base.apply_first(w.pending, (n - 1) as nat);
        assert(w.pending[n - 1].wf());
        apply_keeps_wf(earlier, w.pending[n - 1]);
        first_free_is_least(earlier.alive, earlier.generations, 0);
    }
}

/// Later commands do not change what the first `n` commands lead to.
pub proof fn apply_first_ignores_the_rest(w: WorldView, cs: Seq<Command>, c: Command, n: nat)
    requires
        n <= cs.len(),
    ensures
        w.apply_first(cs.push(c), n) == w.apply_first(cs, n),
    decreases n,
{
    if n > 0 {
        apply_first_ignores_the_rest(w, cs, c, (n - 1) as nat);
        assert(cs.push(c)[n - 1] == cs[n - 1]);
    }
}

/// Carrying out commands and one more is carrying out the one more after
/// the others.
pub proof fn apply_after_push(w: WorldView, cs: Seq<Command>, c: Command)
    ensures
        w.apply_first(cs.push(c), cs.len() + 1) == w.apply_first(cs, cs.len()).apply(c),
{
    apply_first_ignores_the_rest(w, cs, c, cs.len());
    assert(cs.push(c)[cs.len() as int] == c);
}

/// Whether at most one of the entities is a player.
pub open spec fn at_most_one_player(data: Seq<EntityData>) -> bool {
    forall|i: int, j: int|
        0 <= i < data.len() && 0 <= j < data.len() && (#[trigger] data[i]).is_player is Some && (
        #[trigger] data[j]).is_player is Some ==> i == j
}

/// Whether the command makes no player.
pub open spec fn makes_no_player(c: Command) -> bool {
    c matches Command::Create(d) ==> d.is_player is None
}

/// Whether none of the commands makes a player.
pub open spec fn none_makes_a_player(cs: Seq<Command>) -> bool {
    forall|k: int| 0 <= k < cs.len() ==> makes_no_player(#[trigger] cs[k])
}

/// Commands that make no player, joined, make no player.
pub proof fn joined_make_no_player(first: Seq<Command>, second: Seq<Command>)
    requires
        none_makes_a_player(first),
        none_makes_a_player(second),
    ensures
        none_makes_a_player(first + second),
{
    assert forall|k: int| 0 <= k < (first + second).len() implies makes_no_player(
        #[trigger] (first + second)[k],
    ) by {
        if k < first.len() {
            assert(makes_no_player(first[k]));
        } else {
            assert(makes_no_player(second[k - first.len()]));
        }
    }
}

/// Commands that make no player, with one more that makes none, make no
/// player.
pub proof fn pushed_makes_no_player(cs: Seq<Command>, c: Command)
    requires
        none_makes_a_player(cs),
        makes_no_player(c),
    ensures
        none_makes_a_player(cs.push(c)),
{
    assert forall|k: int| 0 <= k < cs.push(c).len() implies makes_no_player(
        #[trigger] cs.push(c)[k],
    ) by {
        if k < cs.len() {
            assert(makes_no_player(cs[k]));
        }
    }
}

/// Carrying out a command that makes no player leaves at most one player
/// where there was at most one.
pub proof fn apply_keeps_one_player(w: WorldView, c: Command)
    requires
        w.wf(),
        c.wf(),
        makes_no_player(c),
        at_most_one_player(w.data),
    ensures
        at_most_one_player(w.apply(c).data),
{
    first_free_is_least(w.alive, w.generations, 0);
    let after = w.apply(c);
    assert forall|i: int, j: int|
        0 <= i < after.data.len() && 0 <= j < after.data.len() && (#[trigger] after.data[i])
            .is_player is Some && (#[trigger] after.data[j]).is_player is Some implies i == j by {
        assert(i < w.data.len() && w.data[i].is_player is Some);
        assert(j < w.data.len() && w.data[j].is_player is Some);
    }
}

/// Carrying out the first `n` of commands that make no player leaves at
/// most one player where there was at most one.
pub proof fn apply_first_keeps_one_player(w: WorldView, cs: Seq<Command>, n: nat)
    requires
        w.wf(),
        n <= cs.len(),
        forall|k: int| 0 <= k < cs.len() ==> (#[trigger] cs[k]).wf(),
        none_makes_a_player(cs),
        at_most_one_player(w.data),
    ensures
        w.apply_first(cs, n).wf(),
        at_most_one_player(w.apply_first(cs, n).data),
    decreases n,
{
    if n > 0 {
        apply_first_keeps_one_player(w, cs, (n - 1) as nat);
        let earlier = w.apply_first(cs, (n - 1) as nat);
        assert(cs[n - 1].wf());
        assert(makes_no_player(cs[n - 1]));
        apply_keeps_wf(earlier, cs[n - 1]);
        apply_keeps_one_player(earlier, cs[n - 1]);
    }
}

/// Carrying out a queue that makes no player leaves at most one player
/// where there was at most one.
pub proof fn maintained_keeps_one_player(w: WorldView)
    requires
        w.wf(),
        none_makes_a_player(w.pending),
        at_most_one_player(w.data),
    ensures
        w.maintained().wf(),
        at_most_one_player(w.maintained().data),
        w.maintained().pending.len() == 0,
{
    let base = WorldView { pending: Seq::empty(), ..w };
    assert(base.wf());
    apply_first_keeps_one_player(base, w.pending, w.pending.len());
    maintained_is_empty(w, w.pending.len());
}

/// Carrying out commands leaves the queue of the store as it was: empty,
/// where the queue that is carried out was taken off it.
pub proof fn maintained_is_empty(w: WorldView, n: nat)
    requires
        n <= w.pending.len(),
    ensures
        (WorldView { pending: Seq::empty(), ..w }).apply_first(w.pending, n).pending.len() == 0,
    decreases n,
{
    if n > 0 {
        maintained_is_empty(w, (n - 1) as nat);
    }
}

/// Queueing no command changes nothing.
pub proof fn queue_nothing(w: WorldView)
    ensures
        w.queue_all(Seq::empty()) == w,
{
    assert(w.pending + Seq::<Command>::empty() =~= w.pending);
}

/// Queueing command after command is queueing them all at once.
pub proof fn queue_extends(w: WorldView, cs: Seq<Command>, c: Command)
    ensures
        w.queue_all(cs).queue(c) == w.queue_all(cs.push(c)),
{
    assert((w.pending + cs).push(c) =~= w.pending + cs.push(c));
}

/// Queueing one batch after another is queueing the two joined.
pub proof fn queue_joins(w: WorldView, first: Seq<Command>, second: Seq<Command>)
    ensures
        w.queue_all(first).queue_all(second) == w.queue_all(first + second),
{
    assert((w.pending + first) + second =~= w.pending + (first + second));
}

/// Replacing the components of one slot keeps the store well formed, as
/// long as the new components are well formed and a dead slot stays empty.
pub proof fn update_keeps_wf(w: WorldView, i: int, d: EntityData)
    requires
        w.wf(),
        0 <= i < w.data.len(),
        d.wf(),
        !w.alive[i] ==> d == EntityData::spec_empty(),
    ensures
        (WorldView { data: w.data.update(i, d), ..w }).wf(),
{
    let u = WorldView { data: w.data.update(i, d), ..w };
    assert forall|j: int| 0 <= j < u.data.len() implies (#[trigger] u.data[j]).wf() by {
        if j != i {
            assert(w.data[j].wf());
        }
    }
    assert forall|j: int| 0 <= j < u.data.len() && !u.alive[j] implies #[trigger] u.data[j]
        == EntityData::spec_empty() by {
        if j != i {
            assert(w.data[j] == EntityData::spec_empty());
        }
    }
}

/// The store: the registry of entities, one storage for each kind of
/// component, the resources, and the commands that wait for the end of the
/// frame.
pub struct World {
    pub entities: Entities,
    pub position: Storage<Position>,
    pub velocity: Storage<Velocity>,
    pub sprite: Storage<Sprite>,
    pub draw: Storage<Draw>,
    pub movement_kind: Storage<MovementKind>,
    pub spawner_kind: Storage<SpawnerKind>,
    pub lifetime: Storage<Lifetime>,
    pub invincibility: Storage<Invincibility>,
    pub is_player: Storage<IsPlayer>,
    pub is_alien: Storage<IsAlien>,
    pub is_explosion: Storage<IsExplosion>,
    pub harms_player: Storage<HarmsPlayer>,
    pub harms_aliens: Storage<HarmsAliens>,
    pub keep_inside: Storage<KeepInside>,
    pub reap_when_outside: Storage<ReapWhenOutside>,
    pub arena: Arena,
    pub elapsed: ElapsedSeconds,
    pub control_state: ControlState,
    pub playing_state: PlayingGameState,
    pub pending: Vec<Command>,
}

impl World {
    /// Every storage has one slot per registry slot.
    pub open spec fn aligned(&self) -> bool {
        let n = self.entities.alive@.len();
        &&& self.position@.len() == n
        &&& self.velocity@.len() == n
        &&& self.sprite@.len() == n
        &&& self.draw@.len() == n
        &&& self.movement_kind@.len() == n
        &&& self.spawner_kind@.len() == n
        &&& self.lifetime@.len() == n
        &&& self.invincibility@.len() == n
        &&& self.is_player@.len() == n
        &&& self.is_alien@.len() == n
        &&& self.is_explosion@.len() == n
        &&& self.harms_player@.len() == n
        &&& self.harms_aliens@.len() == n
        &&& self.keep_inside@.len() == n
        &&& self.reap_when_outside@.len() == n
    }

    /// The components in slot `i`, gathered from the storages.
    pub open spec fn data_at(&self, i: int) -> EntityData {
        EntityData {
            position: self.position@[i],
            velocity: self.velocity@[i],
            sprite: self.sprite@[i],
            draw: self.draw@[i],
            movement_kind: self.movement_kind@[i],
            spawner_kind: self.spawner_kind@[i],
            lifetime: self.lifetime@[i],
            invincibility: self.invincibility@[i],
            is_player: self.is_player@[i],
            is_alien: self.is_alien@[i],
            is_explosion: self.is_explosion@[i],
            harms_player: self.harms_player@[i],
            harms_aliens: self.harms_aliens@[i],
            keep_inside: self.keep_inside@[i],
            reap_when_outside: self.reap_when_outside@[i],
        }
    }

    /// The store as a mathematical value.
    pub open spec fn view(&self) -> WorldView {
        WorldView {
            alive: self.entities.alive@,
            generations: self.entities.generations@,
            data: Seq::new(self.entities.alive@.len(), |i: int| self.data_at(i)),
            arena: self.arena,
            elapsed: self.elapsed,
            control_state: self.control_state,
            playing_state: self.playing_state,
            pending: self.pending@,
        }
    }

    /// The storages cover the registry's slots, and the store's value is
    /// well formed.
    pub open spec fn wf(&self) -> bool {
        &&& self.aligned()
        &&& self@.wf()
    }

    /// The empty store for the given arena: no entity, nothing held, no
    /// time elapsed, a fresh score.
    pub open spec fn spec_new(arena: Arena) -> WorldView {
        WorldView {
            alive: Seq::empty(),
            generations: Seq::empty(),
            data: Seq::empty(),
            arena,
            elapsed: ElapsedSeconds(0),
            control_state: ControlState {
                left: false,
                right: false,
                up: false,
                down: false,
                fire: false,
            },
            playing_state: PlayingGameState { score: 0, lives_left: crate::resources::STARTING_LIVES },
            pending: Seq::empty(),
        }
    }

    pub fn new(arena: Arena) -> (w: World)
        requires
            arena.0.wf(),
        ensures
            w.wf(),
            w@ == World::spec_new(arena),
    {
        let w = World {
            entities: Entities::new(),
            position: Storage::new(),
            velocity: Storage::new(),
            sprite: Storage::new(),
            draw: Storage::new(),
            movement_kind: Storage::new(),
            spawner_kind: Storage::new(),
            lifetime: Storage::new(),
            invincibility: Storage::new(),
            is_player: Storage::new(),
            is_alien: Storage::new(),
            is_explosion: Storage::new(),
            harms_player: Storage::new(),
            harms_aliens: Storage::new(),
            keep_inside: Storage::new(),
            reap_when_outside: Storage::new(),
            arena,
            elapsed: ElapsedSeconds(0),
            control_state: ControlState::new(),
            playing_state: PlayingGameState::new(),
            pending: Vec::new(),
        };
        assert(w@.data =~= Seq::empty());
        w
    }

    /// The number of slots, live or dead.
    pub fn len(&self) -> (n: usize)
        requires
            self.wf(),
        ensures
            n == self@.len(),
    {
        self.entities.len()
    }

    /// The components in slot `i`; none where no entity lives there.
    pub fn read(&self, i: usize) -> (d: EntityData)
        requires
            self.wf(),
        ensures
            d == (if i < self@.len() {
                self@.data[i as int]
            } else {
                EntityData::spec_empty()
            }),
    {
        EntityData {
            position: self.position.get(i),
            velocity: self.velocity.get(i),
            sprite: self.sprite.get(i),
            draw: self.draw.get(i),
            movement_kind: self.movement_kind.get(i),
            spawner_kind: self.spawner_kind.get(i),
            lifetime: self.lifetime.get(i),
            invincibility: self.invincibility.get(i),
            is_player: self.is_player.get(i),
            is_alien: self.is_alien.get(i),
            is_explosion: self.is_explosion.get(i),
            harms_player: self.harms_player.get(i),
            harms_aliens: self.harms_aliens.get(i),
            keep_inside: self.keep_inside.get(i),
            reap_when_outside: self.reap_when_outside.get(i),
        }
    }
}

} // verus!
