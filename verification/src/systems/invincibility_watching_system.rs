//! Counts invincibility down and ends it.

use vstd::prelude::*;
use crate::components::{EntityData, Invincibility, Sprite};
use crate::resources::ElapsedSeconds;
use crate::systems::lifetime_watching_system::{count_down, counted_down};
use crate::world::{
    apply_after_push, none_makes_a_player, pushed_makes_no_player, queue_extends, queue_nothing,
    update_keeps_wf, Command, World, WorldView,
};

verus! {

/// What the system makes of one entity: an invincibility is counted down.
pub open spec fn fade_entity(d: EntityData, elapsed: ElapsedSeconds) -> EntityData {
    match d.invincibility {
        Some(v) => EntityData {
            invincibility: Some(
                Invincibility { micros_left: counted_down(v.micros_left, elapsed) },
            ),
            ..d
        },
        None => d,
    }
}

/// Whether the entity's invincibility ends in this frame.
pub open spec fn wears_off(d: EntityData, elapsed: ElapsedSeconds) -> bool {
    d.invincibility matches Some(v) && counted_down(v.micros_left, elapsed) <= 0
}

/// What is asked for the entities among the first `n` slots whose
/// invincibility ends: that it be taken off, and that the entity look like
/// an ordinary player again.
pub open spec fn invincibility_ends(w: WorldView, n: nat) -> Seq<Command>
    decreases n,
{
    if n == 0 {
        Seq::empty()
    } else {
        let rest = invincibility_ends(w, (n - 1) as nat);
        if wears_off(w.data[n - 1], w.elapsed) {
            rest.push(Command::RemoveInvincibility(w.entity_at(n - 1))).push(
                Command::SetSprite(w.entity_at(n - 1), Sprite::Player),
            )
        } else {
            rest
        }
    }
}

/// Ending an invincibility makes no player.
pub proof fn invincibility_ends_make_no_player(w: WorldView, n: nat)
    ensures
        none_makes_a_player(invincibility_ends(w, n)),
    decreases n,
{
    if n > 0 {
        invincibility_ends_make_no_player(w, (n - 1) as nat);
        if wears_off(w.data[n - 1], w.elapsed) {
            let rest = invincibility_ends(w, (n - 1) as nat);
            let off = Command::RemoveInvincibility(w.entity_at(n - 1));
            pushed_makes_no_player(rest, off);
            pushed_makes_no_player(
                rest.push(off),
                Command::SetSprite(w.entity_at(n - 1), Sprite::Player),
            );
        }
    }
}

/// The store after the system ran.
pub open spec fn faded(w: WorldView) -> WorldView {
    (WorldView { data: Seq::new(w.data.len(), |i: int| fade_entity(w.data[i], w.elapsed)), ..w })
        .queue_all(invincibility_ends(w, w.data.len()))
}

/// The entity once its invincibility has ended: it has none, and looks
/// like an ordinary player.
pub open spec fn unprotected(d: EntityData) -> EntityData {
    EntityData { invincibility: None, sprite: Some(Sprite::Player), ..d }
}

/// The store once the invincibilities in the first `n` slots have been
/// dealt with, in a frame in which nothing else was asked for: every
/// invincibility is counted down; an entity among the first `n` whose
/// invincibility wore off has lost it and looks like an ordinary player;
/// every other entity keeps its invincibility and its picture. No entity
/// is made or deleted.
pub open spec fn invincibility_ended(w: WorldView, n: nat) -> WorldView {
    WorldView {
        data: Seq::new(
            w.data.len(),
            |i: int|
                if i < n && wears_off(w.data[i], w.elapsed) {
                    unprotected(fade_entity(w.data[i], w.elapsed))
                } else {
                    fade_entity(w.data[i], w.elapsed)
                },
        ),
        pending: Seq::empty(),
        ..w
    }
}

/// Carrying out what was asked for the first `n` slots leads to the store
/// that `invincibility_ended` describes.
pub proof fn invincibility_ends_slot_by_slot(w: WorldView, n: nat)
    requires
        w.wf(),
        n <= w.data.len() <= usize::MAX,
    ensures
        invincibility_ended(w, 0).apply_first(
            invincibility_ends(w, n),
            invincibility_ends(w, n).len(),
        ) == invincibility_ended(w, n),
    decreases n,
{
    let base = invincibility_ended(w, 0);
    if n > 0 {
        invincibility_ends_slot_by_slot(w, (n - 1) as nat);
        let rest = invincibility_ends(w, (n - 1) as nat);
        let before = invincibility_ended(w, (n - 1) as nat);
        let after = invincibility_ended(w, n);
        let i = n - 1;
        if wears_off(w.data[i], w.elapsed) {
            let e = w.entity_at(i);
            let off = Command::RemoveInvincibility(e);
            let look = Command::SetSprite(e, Sprite::Player);
            apply_after_push(base, rest, off);
            apply_after_push(base, rest.push(off), look);
            assert(w.data[i].wf());
            assert(w.alive[i]);
            assert(before.is_alive(e));
            let halfway = before.remove_invincibility(e);
            assert(halfway.is_alive(e));
            assert(halfway.set_sprite(e, Sprite::Player).data =~= after.data);
        } else {
            assert(before.data =~= after.data);
        }
    }
}

/// What a frame makes of invincibility: in a store where nothing waits,
/// once the system ran and the queue was carried out, exactly the entities
/// whose invincibility is at or below zero have lost it and look like an
/// ordinary player; every other entity keeps its invincibility, counted
/// down, and its picture; and no entity was made or deleted.
pub proof fn invincibility_after_maintenance(w: WorldView)
    requires
        w.wf(),
        w.pending.len() == 0,
        w.data.len() <= usize::MAX,
    ensures
        faded(w).maintained() == invincibility_ended(w, w.data.len()),
{
    invincibility_ends_slot_by_slot(w, w.data.len());
    assert(faded(w).pending =~= invincibility_ends(w, w.data.len()));
    assert((WorldView { pending: Seq::empty(), ..faded(w) }) == invincibility_ended(w, 0)) by {
        assert(faded(w).data =~= invincibility_ended(w, 0).data);
    }
}

/// The system that lets invincibility wear off.
pub struct InvincibilityWatching;

impl InvincibilityWatching {
    /// Counts every invincibility down by the frame's duration. Where it is
    /// at or below zero then, queues its removal and the change of picture.
    pub fn run(&mut self, world: &mut World)
        requires
            old(world).wf(),
        ensures
            final(world).wf(),
            final(world)@ == faded(old(world)@),
    {
        let n = world.len();
        let elapsed = world.elapsed;
        let mut i: usize = 0;
        proof {
            queue_nothing(old(world)@);
            assert(world@.data =~= old(world)@.data);
        }
        while i < n
            invariant
                world.wf(),
                old(world).wf(),
                i <= n,
                n == world@.data.len(),
                n == old(world)@.data.len(),
                elapsed == old(world)@.elapsed,
                world@ == (WorldView { data: world@.data, ..old(world)@ }).queue_all(
                    invincibility_ends(old(world)@, i as nat),
                ),
                forall|j: int|
                    0 <= j < i ==> #[trigger] world@.data[j] == fade_entity(
                        old(world)@.data[j],
                        elapsed,
                    ),
                forall|j: int| i <= j < n ==> #[trigger] world@.data[j] == old(world)@.data[j],
            decreases n - i,
        {
            let ghost before = world@;
            let ghost so_far = invincibility_ends(old(world)@, i as nat);
            assert(before.data[i as int].wf());
            match world.invincibility.get(i) {
                Some(v) => {
                    let left = count_down(v.micros_left, elapsed);
                    world.invincibility.insert(i, Invincibility { micros_left: left });
                    proof {
                        let after = fade_entity(before.data[i as int], elapsed);
                        assert(world@.data =~= before.data.update(i as int, after));
                        update_keeps_wf(before, i as int, after);
                    }
                    if left <= 0 {
                        let entity = world.entities.handle(i);
                        let ghost changed = world@;
                        world.queue(Command::RemoveInvincibility(entity));
                        world.queue(Command::SetSprite(entity, Sprite::Player));
                        proof {
                            let base = WorldView { data: changed.data, ..old(world)@ };
                            queue_extends(base, so_far, Command::RemoveInvincibility(entity));
                            queue_extends(
                                base,
                                so_far.push(Command::RemoveInvincibility(entity)),
                                Command::SetSprite(entity, Sprite::Player),
                            );
                        }
                    }
                },
                None => {},
            }
            proof {
                let after = fade_entity(before.data[i as int], elapsed);
                assert(world@.data =~= before.data.update(i as int, after));
            }
            i += 1;
        }
        proof {
            assert(world@.data =~= faded(old(world)@).data);
        }
    }
}

} // verus!
