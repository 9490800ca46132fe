//! Removes what has left the arena for good.

use vstd::prelude::*;
use crate::components::EntityData;
use crate::resources::Arena;
use crate::world::{
    none_makes_a_player, pushed_makes_no_player, queue_extends, queue_nothing, Command, World,
    WorldView,
};

verus! {

/// Whether the entity is to be reaped: it is tagged for it and its
/// rectangle shares no point with the arena, not even on an edge.
pub open spec fn is_outsider(d: EntityData, arena: Arena) -> bool {
    &&& d.reap_when_outside is Some
    &&& d.position matches Some(p)
    &&& !p.rect.spec_overlaps(&arena.0)
}

/// The deletions of the outsiders among the first `n` slots, in slot
/// order.
pub open spec fn outsider_deletes(w: WorldView, n: nat) -> Seq<Command>
    decreases n,
{
    if n == 0 {
        Seq::empty()
    } else {
        let rest = outsider_deletes(w, (n - 1) as nat);
        if is_outsider(w.data[n - 1], w.arena) {
            rest.push(Command::Delete(w.entity_at(n - 1)))
        } else {
            rest
        }
    }
}

/// Reaping makes no player.
pub proof fn outsider_deletes_make_no_player(w: WorldView, n: nat)
    ensures
        none_makes_a_player(outsider_deletes(w, n)),
    decreases n,
{
    if n > 0 {
        outsider_deletes_make_no_player(w, (n - 1) as nat);
        if is_outsider(w.data[n - 1], w.arena) {
            pushed_makes_no_player(
                outsider_deletes(w, (n - 1) as nat),
                Command::Delete(w.entity_at(n - 1)),
            );
        }
    }
}

/// The system that removes what has left the arena.
pub struct ReapOutsiders;

impl ReapOutsiders {
    /// Queues the deletion of every tagged entity that is wholly outside
    /// the arena. The store itself stays as it is.
    pub fn run(&mut self, world: &mut World)
        requires
            old(world).wf(),
        ensures
            final(world).wf(),
            final(world)@ == old(world)@.queue_all(
                outsider_deletes(old(world)@, old(world)@.data.len()),
            ),
    {
        let n = world.len();
        let arena = world.arena;
        let mut i: usize = 0;
        proof {
            queue_nothing(old(world)@);
        }
        while i < n
            invariant
                world.wf(),
                old(world).wf(),
                i <= n,
                n == old(world)@.data.len(),
                arena == old(world)@.arena,
                world@ == old(world)@.queue_all(outsider_deletes(old(world)@, i as nat)),
            decreases n - i,
        {
            let ghost so_far = outsider_deletes(old(world)@, i as nat);
            assert(world@.data == old(world)@.data);
            assert(old(world)@.data[i as int].wf());
            if world.reap_when_outside.contains(i) {
                match world.position.get(i) {
                    Some(p) => {
                        if !p.rect.overlaps(&arena.0) {
                            let gone = Command::Delete(world.entities.handle(i));
                            world.queue(gone);
                            proof {
                                queue_extends(old(world)@, so_far, gone);
                            }
                        }
                    },
                    None => {},
                }
            }
            i += 1;
        }
    }
}

} // verus!
