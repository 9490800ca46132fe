//! Counts lifetimes down and removes what has run out.

use vstd::prelude::*;
use crate::components::{EntityData, Lifetime};
use crate::resources::ElapsedSeconds;
use crate::entity::handle_is_stale;
use crate::world::{
    apply_after_push, none_makes_a_player, pushed_makes_no_player, queue_extends, queue_nothing,
    queued_delete_takes_effect, unqueued_entities_live_on, update_keeps_wf, Command, World,
    WorldView,
};

verus! {

/// A countdown of `micros` after `elapsed` more microseconds. It goes below
/// zero, down to the least number that can be held.
pub open spec fn counted_down(micros: i64, elapsed: ElapsedSeconds) -> i64 {
    if micros - elapsed.0 < i64::MIN {
        i64::MIN
    } else {
        (micros - elapsed.0) as i64
    }
}

/// Counts a countdown down.
pub fn count_down(micros: i64, elapsed: ElapsedSeconds) -> (r: i64)
    ensures
        r == counted_down(micros, elapsed),
{
    let wide: i128 = micros as i128 - elapsed.0 as i128;
    if wide < i64::MIN as i128 {
        i64::MIN
    } else {
        wide as i64
    }
}

/// What the system makes of one entity: a lifetime is counted down.
pub open spec fn age_entity(d: EntityData, elapsed: ElapsedSeconds) -> EntityData {
    match d.lifetime {
        Some(l) => EntityData {
            lifetime: Some(Lifetime { micros: counted_down(l.micros, elapsed) }),
            ..d
        },
        None => d,
    }
}

/// Whether the entity's lifetime runs out in this frame.
pub open spec fn runs_out(d: EntityData, elapsed: ElapsedSeconds) -> bool {
    d.lifetime matches Some(l) && counted_down(l.micros, elapsed) <= 0
}

/// The deletions of the entities among the first `n` slots whose lifetime
/// runs out, in slot order.
pub open spec fn lifetime_deletes(w: WorldView, n: nat) -> Seq<Command>
    decreases n,
{
    if n == 0 {
        Seq::empty()
    } else {
        let rest = lifetime_deletes(w, (n - 1) as nat);
        if runs_out(w.data[n - 1], w.elapsed) {
            rest.push(Command::Delete(w.entity_at(n - 1)))
        } else {
            rest
        }
    }
}

/// Deleting what has run out makes no player.
pub proof fn lifetime_deletes_make_no_player(w: WorldView, n: nat)
    ensures
        none_makes_a_player(lifetime_deletes(w, n)),
    decreases n,
{
    if n > 0 {
        lifetime_deletes_make_no_player(w, (n - 1) as nat);
        if runs_out(w.data[n - 1], w.elapsed) {
            pushed_makes_no_player(
                lifetime_deletes(w, (n - 1) as nat),
                Command::Delete(w.entity_at(n - 1)),
            );
        }
    }
}

/// The store after the system ran.
pub open spec fn aged(w: WorldView) -> WorldView {
    (WorldView { data: Seq::new(w.data.len(), |i: int| age_entity(w.data[i], w.elapsed)), ..w })
        .queue_all(lifetime_deletes(w, w.data.len()))
}

/// The deletion of every entity among the first `n` slots whose lifetime
/// runs out is queued.
pub proof fn run_out_is_queued(w: WorldView, n: nat, i: int)
    requires
        0 <= i < n,
        runs_out(w.data[i], w.elapsed),
    ensures
        lifetime_deletes(w, n).contains(Command::Delete(w.entity_at(i))),
    decreases n,
{
    let rest = lifetime_deletes(w, (n - 1) as nat);
    if i < n - 1 {
        run_out_is_queued(w, (n - 1) as nat, i);
        let k = choose|k: int| 0 <= k < rest.len() && rest[k] == Command::Delete(w.entity_at(i));
        assert(lifetime_deletes(w, n)[k] == Command::Delete(w.entity_at(i)));
    } else {
        assert(lifetime_deletes(w, n)[rest.len() as int] == Command::Delete(w.entity_at(i)));
    }
}

/// Nothing but the deletion of entities whose lifetime runs out is
/// queued.
pub proof fn only_run_out_is_queued(w: WorldView, n: nat, k: int)
    requires
        0 <= k < lifetime_deletes(w, n).len(),
    ensures
        exists|i: int|
            0 <= i < n && runs_out(#[trigger] w.data[i], w.elapsed) && lifetime_deletes(w, n)[k]
                == Command::Delete(w.entity_at(i)),
    decreases n,
{
    if n > 0 {
        let rest = lifetime_deletes(w, (n - 1) as nat);
        if k < rest.len() {
            only_run_out_is_queued(w, (n - 1) as nat, k);
            let i = choose|i: int|
                0 <= i < n - 1 && runs_out(#[trigger] w.data[i], w.elapsed) && rest[k]
                    == Command::Delete(w.entity_at(i));
            assert(lifetime_deletes(w, n)[k] == rest[k]);
            assert(runs_out(w.data[i], w.elapsed));
        } else {
            assert(runs_out(w.data[n - 1], w.elapsed));
        }
    }
}

/// A lifetime goes down by exactly the frame's duration, and the entity is
/// gone at the end of the first frame in which its lifetime is at or below
/// zero: the lifetime in slot `i` is `micros` less the duration once the
/// system ran; where that is at or below zero the entity's handle is stale
/// once the queue was carried out, whatever else was queued; and where it
/// is above zero and nothing else was queued the entity lives on.
pub proof fn lifetimes_run_down(w: WorldView, i: int, micros: i64)
    requires
        w.wf(),
        0 <= i < w.data.len() <= usize::MAX,
        w.data[i].lifetime == Some(Lifetime { micros }),
        micros - w.elapsed.0 >= i64::MIN,
    ensures
        aged(w).data[i].lifetime == Some(Lifetime { micros: (micros - w.elapsed.0) as i64 }),
        micros - w.elapsed.0 <= 0 ==> handle_is_stale(
            aged(w).maintained().generations,
            w.entity_at(i),
        ) && !aged(w).maintained().is_alive(w.entity_at(i)),
        micros - w.elapsed.0 > 0 && w.pending.len() == 0 ==> aged(w).maintained().is_alive(
            w.entity_at(i),
        ),
{
    let e = w.entity_at(i);
    let after = aged(w);
    assert(w.data[i].wf());
    assert(w.alive[i]);
    assert(w.is_alive(e));
    aged_is_wf(w);
    if micros - w.elapsed.0 <= 0 {
        run_out_is_queued(w, w.data.len(), i);
        let gone = lifetime_deletes(w, w.data.len());
        let k = choose|k: int| 0 <= k < gone.len() && gone[k] == Command::Delete(e);
        assert(after.pending[w.pending.len() + k] == Command::Delete(e));
        queued_delete_takes_effect(after, e, w.pending.len() + k);
    } else if w.pending.len() == 0 {
        assert(after.pending =~= lifetime_deletes(w, w.data.len()));
        assert forall|k: int| 0 <= k < after.pending.len() implies after.pending[k]
            != Command::Delete(e) by {
            only_run_out_is_queued(w, w.data.len(), k);
            let j = choose|j: int|
                0 <= j < w.data.len() && runs_out(#[trigger] w.data[j], w.elapsed)
                    && lifetime_deletes(w, w.data.len())[k] == Command::Delete(w.entity_at(j));
            if w.entity_at(j) == e {
                assert(j == i);
            }
        }
        unqueued_entities_live_on(after, e, after.pending.len());
    }
}

/// The system leaves a well-formed store well formed.
pub proof fn aged_is_wf(w: WorldView)
    requires
        w.wf(),
    ensures
        aged(w).wf(),
        aged(w).alive == w.alive,
        aged(w).generations == w.generations,
{
    let after = aged(w);
    assert forall|j: int| 0 <= j < after.data.len() implies (#[trigger] after.data[j]).wf() by {
        assert(w.data[j].wf());
    }
    assert forall|j: int| 0 <= j < after.data.len() && !after.alive[j] implies #[trigger] after
        .data[j] == EntityData::spec_empty() by {
        assert(w.data[j] == EntityData::spec_empty());
    }
    assert forall|k: int| 0 <= k < after.pending.len() implies (#[trigger] after.pending[k]).wf() by {
        if k < w.pending.len() {
            assert(w.pending[k].wf());
        } else {
            only_run_out_is_queued(w, w.data.len(), k - w.pending.len());
        }
    }
}

/// The store once the lifetimes in the first `n` slots have been dealt
/// with, in a frame in which nothing else was asked for: every lifetime is
/// counted down; an entity among the first `n` whose lifetime ran out is
/// gone, its slot dead, empty and a generation on; every other slot lives
/// on as it was. No slot is added.
pub open spec fn lifetimes_ended(w: WorldView, n: nat) -> WorldView {
    WorldView {
        alive: Seq::new(
            w.data.len(),
            |i: int| w.alive[i] && !(i < n && runs_out(w.data[i], w.elapsed)),
        ),
        generations: Seq::new(
            w.data.len(),
            |i: int|
                if i < n && runs_out(w.data[i], w.elapsed) {
                    (w.generations[i] + 1) as u32
                } else {
                    w.generations[i]
                },
        ),
        data: Seq::new(
            w.data.len(),
            |i: int|
                if i < n && runs_out(w.data[i], w.elapsed) {
                    EntityData::spec_empty()
                } else {
                    age_entity(w.data[i], w.elapsed)
                },
        ),
        pending: Seq::empty(),
        ..w
    }
}

/// Carrying out the deletions for the first `n` slots leads to the store
/// that `lifetimes_ended` describes.
pub proof fn lifetimes_end_slot_by_slot(w: WorldView, n: nat)
    requires
        w.wf(),
        n <= w.data.len() <= usize::MAX,
    ensures
        lifetimes_ended(w, 0).apply_first(
            lifetime_deletes(w, n),
            lifetime_deletes(w, n).len(),
        ) == lifetimes_ended(w, n),
    decreases n,
{
    let base = lifetimes_ended(w, 0);
    if n > 0 {
        lifetimes_end_slot_by_slot(w, (n - 1) as nat);
        let rest = lifetime_deletes(w, (n - 1) as nat);
        let before = lifetimes_ended(w, (n - 1) as nat);
        let after = lifetimes_ended(w, n);
        let i = n - 1;
        if runs_out(w.data[i], w.elapsed) {
            let e = w.entity_at(i);
            apply_after_push(base, rest, Command::Delete(e));
            assert(w.data[i].wf());
            assert(w.alive[i]);
            assert(before.is_alive(e));
            assert(before.delete(e).alive =~= after.alive);
            assert(before.delete(e).generations =~= after.generations);
            assert(before.delete(e).data =~= after.data);
        } else {
            assert(before.alive =~= after.alive);
            assert(before.generations =~= after.generations);
            assert(before.data =~= after.data);
        }
    }
}

/// What a frame makes of the lifetimes: in a store where nothing waits,
/// once the system ran and the queue was carried out, exactly the entities
/// whose lifetime is at or below zero are gone, each from every storage;
/// every other entity lives on with its lifetime counted down and
/// everything else as it was; and no entity was made.
pub proof fn lifetimes_after_maintenance(w: WorldView)
    requires
        w.wf(),
        w.pending.len() == 0,
        w.data.len() <= usize::MAX,
    ensures
        aged(w).maintained() == lifetimes_ended(w, w.data.len()),
{
    lifetimes_end_slot_by_slot(w, w.data.len());
    assert(aged(w).pending =~= lifetime_deletes(w, w.data.len()));
    assert((WorldView { pending: Seq::empty(), ..aged(w) }) == lifetimes_ended(w, 0)) by {
        assert(aged(w).alive =~= lifetimes_ended(w, 0).alive);
        assert(aged(w).generations =~= lifetimes_ended(w, 0).generations);
        assert(aged(w).data =~= lifetimes_ended(w, 0).data);
    }
}

/// The system that lets lifetimes run down.
pub struct LifetimeWatching;

impl LifetimeWatching {
    /// Counts every lifetime down by the frame's duration and queues the
    /// deletion of each entity whose lifetime is at or below zero then.
    pub fn run(&mut self, world: &mut World)
        requires
            old(world).wf(),
        ensures
            final(world).wf(),
            final(world)@ == aged(old(world)@),
    {
        let n = world.len();
        let elapsed = world.elapsed;
        let mut i: usize = 0;
        proof {
            queue_nothing(old(world)@);
            assert(world@.data =~= old(world)@.data);
        }
        while i < n
            invariant
                world.wf(),
                old(world).wf(),
                i <= n,
                n == world@.data.len(),
                n == old(world)@.data.len(),
                elapsed == old(world)@.elapsed,
                world@ == (WorldView { data: world@.data, ..old(world)@ }).queue_all(
                    lifetime_deletes(old(world)@, i as nat),
                ),
                forall|j: int|
                    0 <= j < i ==> #[trigger] world@.data[j] == age_entity(
                        old(world)@.data[j],
                        elapsed,
                    ),
                forall|j: int| i <= j < n ==> #[trigger] world@.data[j] == old(world)@.data[j],
            decreases n - i,
        {
            let ghost before = world@;
            let ghost so_far = lifetime_deletes(old(world)@, i as nat);
            assert(before.data[i as int].wf());
            match world.lifetime.get(i) {
                Some(l) => {
                    let left = count_down(l.micros, elapsed);
                    world.lifetime.insert(i, Lifetime { micros: left });
                    proof {
                        let after = age_entity(before.data[i as int], elapsed);
                        assert(world@.data =~= before.data.update(i as int, after));
                        update_keeps_wf(before, i as int, after);
                    }
                    if left <= 0 {
                        let gone = Command::Delete(world.entities.handle(i));
                        let ghost changed = world@;
                        world.queue(gone);
                        proof {
                            queue_extends(
                                WorldView { data: changed.data, ..old(world)@ },
                                so_far,
                                gone,
                            );
                        }
                    }
                },
                None => {},
            }
            proof {
                let after = age_entity(before.data[i as int], elapsed);
                assert(world@.data =~= before.data.update(i as int, after));
            }
            i += 1;
        }
        proof {
            assert(world@.data =~= aged(old(world)@).data);
        }
    }
}

} // verus!
