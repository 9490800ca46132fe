//! Structural changes to the store: making and deleting entities at once,
//! queueing such changes, and carrying the queue out.

use vstd::prelude::*;
use crate::components::{EntityData, Sprite};
use crate::entity::{first_free_is_least, Entity};
use crate::resources::{Arena, ControlState, ElapsedSeconds, PlayingGameState};
use crate::world::{apply_keeps_wf, Command, World, WorldView};

verus! {

impl World {
    /// Makes an entity with the components `data`, at once.
    pub fn create_now(&mut self, data: EntityData) -> (e: Entity)
        requires
            old(self).wf(),
            data.wf(),
        ensures
            final(self).wf(),
            final(self)@ == old(self)@.create(data),
            e == old(self)@.next_entity(),
            final(self)@.is_alive(e),
    {
        let n = self.entities.len();
        let e = self.entities.create();
        proof {
            first_free_is_least(old(self)@.alive, old(self)@.generations, 0);
        }
        if e.index == n {
            self.position.push(data.position);
            self.velocity.push(data.velocity);
            self.sprite.push(data.sprite);
            self.draw.push(data.draw);
            self.movement_kind.push(data.movement_kind);
            self.spawner_kind.push(data.spawner_kind);
            self.lifetime.push(data.lifetime);
            self.invincibility.push(data.invincibility);
            self.is_player.push(data.is_player);
            self.is_alien.push(data.is_alien);
            self.is_explosion.push(data.is_explosion);
            self.harms_player.push(data.harms_player);
            self.harms_aliens.push(data.harms_aliens);
            self.keep_inside.push(data.keep_inside);
            self.reap_when_outside.push(data.reap_when_outside);
        } else {
            self.position.put(e.index, data.position);
            self.velocity.put(e.index, data.velocity);
            self.sprite.put(e.index, data.sprite);
            self.draw.put(e.index, data.draw);
            self.movement_kind.put(e.index, data.movement_kind);
            self.spawner_kind.put(e.index, data.spawner_kind);
            self.lifetime.put(e.index, data.lifetime);
            self.invincibility.put(e.index, data.invincibility);
            self.is_player.put(e.index, data.is_player);
            self.is_alien.put(e.index, data.is_alien);
            self.is_explosion.put(e.index, data.is_explosion);
            self.harms_player.put(e.index, data.harms_player);
            self.harms_aliens.put(e.index, data.harms_aliens);
            self.keep_inside.put(e.index, data.keep_inside);
            self.reap_when_outside.put(e.index, data.reap_when_outside);
        }
        proof {
            assert(self@.data =~= old(self)@.create(data).data);
            apply_keeps_wf(old(self)@, Command::Create(data));
        }
        e
    }

    /// Deletes the entity that `e` names, with all its components, at once.
    /// A handle that names no live entity changes nothing.
    pub fn delete_now(&mut self, e: Entity)
        requires
            old(self).wf(),
        ensures
            final(self).wf(),
            final(self)@ == old(self)@.delete(e),
    {
        if self.entities.delete(e) {
            self.position.remove(e.index);
            self.velocity.remove(e.index);
            self.sprite.remove(e.index);
            self.draw.remove(e.index);
            self.movement_kind.remove(e.index);
            self.spawner_kind.remove(e.index);
            self.lifetime.remove(e.index);
            self.invincibility.remove(e.index);
            self.is_player.remove(e.index);
            self.is_alien.remove(e.index);
            self.is_explosion.remove(e.index);
            self.harms_player.remove(e.index);
            self.harms_aliens.remove(e.index);
            self.keep_inside.remove(e.index);
            self.reap_when_outside.remove(e.index);
        }
        proof {
            assert(self@.data =~= old(self)@.delete(e).data);
            apply_keeps_wf(old(self)@, Command::Delete(e));
        }
    }

    /// Takes the invincibility off the entity that `e` names, at once.
    pub fn remove_invincibility_now(&mut self, e: Entity)
        requires
            old(self).wf(),
        ensures
            final(self).wf(),
            final(self)@ == old(self)@.remove_invincibility(e),
    {
        if self.entities.is_alive(e) {
            self.invincibility.remove(e.index);
        }
        proof {
            assert(self@.data =~= old(self)@.remove_invincibility(e).data);
            apply_keeps_wf(old(self)@, Command::RemoveInvincibility(e));
        }
    }

    /// Gives the entity that `e` names the picture `sprite`, at once.
    pub fn set_sprite_now(&mut self, e: Entity, sprite: Sprite)
        requires
            old(self).wf(),
        ensures
            final(self).wf(),
            final(self)@ == old(self)@.set_sprite(e, sprite),
    {
        if self.entities.is_alive(e) {
            self.sprite.insert(e.index, sprite);
        }
        proof {
            assert(self@.data =~= old(self)@.set_sprite(e, sprite).data);
            apply_keeps_wf(old(self)@, Command::SetSprite(e, sprite));
        }
    }

    /// Carries out one command at once.
    pub fn apply(&mut self, c: Command)
        requires
            old(self).wf(),
            c.wf(),
        ensures
            final(self).wf(),
            final(self)@ == old(self)@.apply(c),
    {
        match c {
            Command::Create(d) => {
                let _ = self.create_now(d);
            },
            Command::Delete(e) => self.delete_now(e),
            Command::RemoveInvincibility(e) => self.remove_invincibility_now(e),
            Command::SetSprite(e, s) => self.set_sprite_now(e, s),
        }
    }

    /// Puts a command on the queue. The store itself stays as it is until
    /// `maintain` runs.
    pub fn queue(&mut self, c: Command)
        requires
            old(self).wf(),
            c.wf(),
        ensures
            final(self).wf(),
            final(self)@ == old(self)@.queue(c),
    {
        self.pending.push(c);
        proof {
            assert(self@.data =~= old(self)@.data);
            assert forall|k: int| 0 <= k < self@.pending.len() implies (#[trigger] self@.pending[k]).wf() by {
                if k < old(self)@.pending.len() {
                    assert(old(self)@.pending[k].wf());
                }
            }
        }
    }

    /// Carries out every waiting command, in the order in which they were
    /// asked for, and empties the queue.
    pub fn maintain(&mut self)
        requires
            old(self).wf(),
        ensures
            final(self).wf(),
            final(self)@ == old(self)@.maintained(),
            final(self)@.pending.len() == 0,
    {
        let mut commands: Vec<Command> = Vec::new();
        std::mem::swap(&mut commands, &mut self.pending);
        let ghost start = WorldView { pending: Seq::empty(), ..old(self)@ };
        proof {
            assert(self@.data =~= start.data);
            assert(self@.pending =~= start.pending);
            assert forall|j: int| 0 <= j < commands@.len() implies (#[trigger] commands@[j]).wf() by {
                assert(old(self)@.pending[j].wf());
            }
        }
        let n = commands.len();
        let mut k: usize = 0;
        while k < n
            invariant
                n == commands@.len(),
                k <= n,
                commands@ == old(self)@.pending,
                forall|j: int| 0 <= j < commands@.len() ==> (#[trigger] commands@[j]).wf(),
                self.wf(),
                self@ == start.apply_first(commands@, k as nat),
                self@.pending.len() == 0,
            decreases n - k,
        {
            let c = commands[k];
            self.apply(c);
            k += 1;
        }
    }

    /// Deletes every entity at once and forgets the commands that wait.
    pub fn delete_all(&mut self)
        requires
            old(self).wf(),
        ensures
            final(self).wf(),
            final(self)@ == old(self)@.cleared(),
    {
        self.pending.clear();
        proof {
            assert(self@.data =~= old(self)@.data);
            assert(self@.pending =~= Seq::<Command>::empty());
        }
        let n = self.len();
        let mut i: usize = 0;
        while i < n
            invariant
                self.wf(),
                old(self).wf(),
                i <= n,
                n == old(self)@.data.len(),
                n == self@.data.len(),
                self@ == (WorldView {
                    alive: self@.alive,
                    generations: self@.generations,
                    data: self@.data,
                    pending: Seq::empty(),
                    ..old(self)@
                }),
                forall|j: int|
                    0 <= j < i ==> {
                        &&& !(#[trigger] self@.alive[j])
                        &&& self@.generations[j] == old(self)@.generation_after_delete(j)
                        &&& self@.data[j] == EntityData::spec_empty()
                    },
                forall|j: int|
                    i <= j < n ==> {
                        &&& #[trigger] self@.alive[j] == old(self)@.alive[j]
                        &&& self@.generations[j] == old(self)@.generations[j]
                        &&& self@.data[j] == old(self)@.data[j]
                    },
            decreases n - i,
        {
            let ghost before = self@;
            assert(before.alive[i as int] == old(self)@.alive[i as int]);
            let e = self.entities.handle(i);
            self.delete_now(e);
            proof {
                assert forall|j: int| 0 <= j < i + 1 implies {
                    &&& !(#[trigger] self@.alive[j])
                    &&& self@.generations[j] == old(self)@.generation_after_delete(j)
                    &&& self@.data[j] == EntityData::spec_empty()
                } by {
                    if j < i {
                        assert(!before.alive[j]);
                    } else {
                        assert(before.data[j].wf());
                    }
                }
                assert forall|j: int| i + 1 <= j < n implies {
                    &&& #[trigger] self@.alive[j] == old(self)@.alive[j]
                    &&& self@.generations[j] == old(self)@.generations[j]
                    &&& self@.data[j] == old(self)@.data[j]
                } by {
                    assert(before.alive[j] == old(self)@.alive[j]);
                }
            }
            i += 1;
        }
        proof {
            let goal = old(self)@.cleared();
            assert forall|j: int| 0 <= j < n implies self@.alive[j] == goal.alive[j] by {
                assert(!self@.alive[j]);
            }
            assert(self@.alive =~= goal.alive);
            assert forall|j: int| 0 <= j < n implies self@.generations[j] == goal.generations[j] by {
                assert(!self@.alive[j]);
            }
            assert(self@.generations =~= goal.generations);
            assert forall|j: int| 0 <= j < n implies self@.data[j] == goal.data[j] by {
                assert(!self@.alive[j]);
            }
            assert(self@.data =~= goal.data);
        }
    }

    pub fn set_arena(&mut self, arena: Arena)
        requires
            old(self).wf(),
            arena.0.wf(),
        ensures
            final(self).wf(),
            final(self)@ == (WorldView { arena, ..old(self)@ }),
    {
        self.arena = arena;
        proof {
            assert(self@.data =~= old(self)@.data);
        }
    }

    pub fn set_elapsed(&mut self, elapsed: ElapsedSeconds)
        requires
            old(self).wf(),
        ensures
            final(self).wf(),
            final(self)@ == (WorldView { elapsed, ..old(self)@ }),
    {
        self.elapsed = elapsed;
        proof {
            assert(self@.data =~= old(self)@.data);
        }
    }

    pub fn set_control_state(&mut self, control_state: ControlState)
        requires
            old(self).wf(),
        ensures
            final(self).wf(),
            final(self)@ == (WorldView { control_state, ..old(self)@ }),
    {
        self.control_state = control_state;
        proof {
            assert(self@.data =~= old(self)@.data);
        }
    }

    pub fn set_playing_state(&mut self, playing_state: PlayingGameState)
        requires
            old(self).wf(),
        ensures
            final(self).wf(),
            final(self)@ == (WorldView { playing_state, ..old(self)@ }),
    {
        self.playing_state = playing_state;
        proof {
            assert(self@.data =~= old(self)@.data);
        }
    }
}

} // verus!
