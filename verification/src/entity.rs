//! Entity handles and the registry that hands them out.

use vstd::prelude::*;

verus! {

/// A handle on a game object: the slot it lives in and the generation of
/// that slot at the time the handle was made.
#[derive(Debug, Copy, Clone, PartialEq, Eq, Structural)]
pub struct Entity {
    pub index: usize,
    pub generation: u32,
}

/// Whether slot `i` can take a new entity: it is dead and its generation can
/// still be told apart from every handle made for it before.
pub open spec fn slot_is_free(alive: Seq<bool>, generations: Seq<u32>, i: int) -> bool {
    0 <= i < alive.len() && i < generations.len() && !alive[i] && generations[i] < u32::MAX
}

/// The least free slot at or after `from`, or the number of slots where
/// there is none.
pub open spec fn first_free_from(alive: Seq<bool>, generations: Seq<u32>, from: int) -> int
    decreases alive.len() - from,
{
    if from < 0 || from >= alive.len() {
        alive.len() as int
    } else if slot_is_free(alive, generations, from) {
        from
    } else {
        first_free_from(alive, generations, from + 1)
    }
}

/// Whether the handle `e` names a live entity.
pub open spec fn handle_is_alive(alive: Seq<bool>, generations: Seq<u32>, e: Entity) -> bool {
    e.index < alive.len() && e.index < generations.len() && alive[e.index as int]
        && generations[e.index as int] == e.generation
}

/// Whether the handle `e` names an entity that was deleted: its slot has
/// moved on to a later generation.
pub open spec fn handle_is_stale(generations: Seq<u32>, e: Entity) -> bool {
    e.index < generations.len() && e.generation < generations[e.index as int]
}

/// `first_free_from` gives a free slot, or the number of slots, and no slot
/// between `from` and it is free.
pub proof fn first_free_is_least(alive: Seq<bool>, generations: Seq<u32>, from: int)
    requires
        0 <= from <= alive.len(),
        alive.len() == generations.len(),
    ensures
        from <= first_free_from(alive, generations, from) <= alive.len(),
        first_free_from(alive, generations, from) < alive.len() ==> slot_is_free(
            alive,
            generations,
            first_free_from(alive, generations, from),
        ),
        forall|j: int|
            from <= j < first_free_from(alive, generations, from) ==> !slot_is_free(
                alive,
                generations,
                j,
            ),
    decreases alive.len() - from,
{
    if from < alive.len() && !slot_is_free(alive, generations, from) {
        first_free_is_least(alive, generations, from + 1);
    }
}

/// The registry: for each slot whether an entity lives in it, and the slot's
/// generation.
pub struct Entities {
    pub alive: Vec<bool>,
    pub generations: Vec<u32>,
}

impl Entities {
    /// Both columns cover the same slots, and a live slot has a generation
    /// that a deletion can still move on from.
    pub open spec fn wf(&self) -> bool {
        &&& self.alive@.len() == self.generations@.len()
        &&& forall|i: int|
            0 <= i < self.alive@.len() && self.alive@[i] ==> self.generations@[i] < u32::MAX
    }

    pub open spec fn spec_len(&self) -> nat {
        self.alive@.len()
    }

    pub open spec fn spec_is_alive(&self, e: Entity) -> bool {
        handle_is_alive(self.alive@, self.generations@, e)
    }

    pub open spec fn spec_is_stale(&self, e: Entity) -> bool {
        handle_is_stale(self.generations@, e)
    }

    /// The slot that the next new entity gets.
    pub open spec fn next_index(&self) -> int {
        first_free_from(self.alive@, self.generations@, 0)
    }

    pub fn new() -> (r: Entities)
        ensures
            r.wf(),
            r.alive@ == Seq::<bool>::empty(),
            r.generations@ == Seq::<u32>::empty(),
    {
        Entities { alive: Vec::new(), generations: Vec::new() }
    }

    /// The number of slots, live or dead.
    pub fn len(&self) -> (n: usize)
        requires
            self.wf(),
        ensures
            n == self.spec_len(),
    {
        self.alive.len()
    }

    pub fn is_alive(&self, e: Entity) -> (r: bool)
        requires
            self.wf(),
        ensures
            r == self.spec_is_alive(e),
    {
        e.index < self.alive.len() && self.alive[e.index] && self.generations[e.index]
            == e.generation
    }

    /// Whether an entity lives in slot `i`.
    pub fn slot_alive(&self, i: usize) -> (r: bool)
        requires
            self.wf(),
        ensures
            r == (i < self.spec_len() && self.alive@[i as int]),
    {
        i < self.alive.len() && self.alive[i]
    }

    /// The handle of the entity in slot `i`, if one lives there.
    pub fn entity_at(&self, i: usize) -> (r: Option<Entity>)
        requires
            self.wf(),
        ensures
            r == (if i < self.spec_len() && self.alive@[i as int] {
                Some(Entity { index: i, generation: self.generations@[i as int] })
            } else {
                None
            }),
    {
        if i < self.alive.len() && self.alive[i] {
            Some(Entity { index: i, generation: self.generations[i] })
        } else {
            None
        }
    }

    /// The handle that slot `i` answers to at present.
    pub fn handle(&self, i: usize) -> (e: Entity)
        requires
            self.wf(),
            i < self.spec_len(),
        ensures
            e == (Entity { index: i, generation: self.generations@[i as int] }),
    {
        Entity { index: i, generation: self.generations[i] }
    }

    /// The slot that `create` would use next.
    pub fn find_free(&self) -> (i: usize)
        requires
            self.wf(),
        ensures
            i == self.next_index(),
            i <= self.spec_len(),
    {
        let n = self.alive.len();
        let mut i: usize = 0;
        while i < n
            invariant
                self.wf(),
                n == self.alive@.len(),
                i <= n,
                first_free_from(self.alive@, self.generations@, 0) == first_free_from(
                    self.alive@,
                    self.generations@,
                    i as int,
                ),
            decreases n - i,
        {
            if !self.alive[i] && self.generations[i] < u32::MAX {
                return i;
            }
            i += 1;
        }
        i
    }

    /// Makes a new live entity in the least free slot, or in a new slot
    /// behind the last one where none is free. Every other slot is as it was.
    pub fn create(&mut self) -> (e: Entity)
        requires
            old(self).wf(),
        ensures
            final(self).wf(),
            e.index == old(self).next_index(),
            e.index < old(self).spec_len() ==> {
                &&& e.generation == old(self).generations@[e.index as int]
                &&& final(self).alive@ == old(self).alive@.update(e.index as int, true)
                &&& final(self).generations@ == old(self).generations@
            },
            e.index == old(self).spec_len() ==> {
                &&& e.generation == 0
                &&& final(self).alive@ == old(self).alive@.push(true)
                &&& final(self).generations@ == old(self).generations@.push(0)
            },
            final(self).spec_is_alive(e),
            !old(self).spec_is_alive(e),
            !old(self).spec_is_stale(e),
    {
        let i = self.find_free();
        proof {
            first_free_is_least(self.alive@, self.generations@, 0);
        }
        if i < self.alive.len() {
            self.alive[i] = true;
            Entity { index: i, generation: self.generations[i] }
        } else {
            self.alive.push(true);
            self.generations.push(0);
            Entity { index: i, generation: 0 }
        }
    }

    /// Deletes the entity that `e` names and moves its slot on to the next
    /// generation. Where `e` names no live entity nothing happens. Returns
    /// whether an entity was deleted.
    pub fn delete(&mut self, e: Entity) -> (deleted: bool)
        requires
            old(self).wf(),
        ensures
            final(self).wf(),
            deleted == old(self).spec_is_alive(e),
            deleted ==> {
                &&& final(self).alive@ == old(self).alive@.update(e.index as int, false)
                &&& final(self).generations@ == old(self).generations@.update(
                    e.index as int,
                    (e.generation + 1) as u32,
                )
            },
            !deleted ==> {
                &&& final(self).alive@ == old(self).alive@
                &&& final(self).generations@ == old(self).generations@
            },
            deleted ==> final(self).spec_is_stale(e),
            !final(self).spec_is_alive(e),
    {
        if self.is_alive(e) {
            self.alive[e.index] = false;
            self.generations[e.index] = e.generation + 1;
            true
        } else {
            false
        }
    }
}

/// A stale handle names no live entity.
pub proof fn stale_is_not_alive(alive: Seq<bool>, generations: Seq<u32>, e: Entity)
    requires
        handle_is_stale(generations, e),
    ensures
        !handle_is_alive(alive, generations, e),
{
}

/// A new entity never answers to an old handle: where the registry hands
/// out the slot of a deleted entity again, the handle of the deleted one
/// stays stale and names nothing.
pub proof fn reuse_keeps_old_handles_dead(alive: Seq<bool>, generations: Seq<u32>, stale: Entity)
    requires
        alive.len() == generations.len(),
        handle_is_stale(generations, stale),
    ensures
        !handle_is_alive(
            alive.update(first_free_from(alive, generations, 0), true),
            generations,
            stale,
        ),
        !handle_is_alive(alive.push(true), generations.push(0), stale),
{
}

} // verus!
