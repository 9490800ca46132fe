//! Dense per-component containers, indexed by entity index.

use vstd::prelude::*;

verus! {

/// One slot per entity index; a slot holds the component or nothing.
pub struct Storage<T> {
    pub slots: Vec<Option<T>>,
}

impl<T: Copy> Storage<T> {
    /// The slots, in index order.
    pub open spec fn view(&self) -> Seq<Option<T>> {
        self.slots@
    }

    /// Whether the entity index `i` has this component.
    pub open spec fn has(&self, i: int) -> bool {
        0 <= i < self@.len() && self@[i] is Some
    }

    /// No index has this component.
    pub open spec fn spec_is_empty(&self) -> bool {
        forall|i: int| 0 <= i < self@.len() ==> self@[i] is None
    }

    pub fn new() -> (s: Storage<T>)
        ensures
            s@ == Seq::<Option<T>>::empty(),
    {
        Storage { slots: Vec::new() }
    }

    pub fn len(&self) -> (n: usize)
        ensures
            n == self@.len(),
    {
        self.slots.len()
    }

    /// The component of index `i`, or nothing where `i` has none or is
    /// beyond the last slot.
    pub fn get(&self, i: usize) -> (r: Option<T>)
        ensures
            r == (if i < self@.len() { self@[i as int] } else { None }),
    {
        if i < self.slots.len() {
            self.slots[i]
        } else {
            None
        }
    }

    pub fn contains(&self, i: usize) -> (r: bool)
        ensures
            r == self.has(i as int),
    {
        if i < self.slots.len() {
            self.slots[i].is_some()
        } else {
            false
        }
    }

    /// Attaches `value` to index `i`, in place of what was there.
    pub fn insert(&mut self, i: usize, value: T)
        requires
            i < old(self)@.len(),
        ensures
            final(self)@ == old(self)@.update(i as int, Some(value)),
    {
        self.slots[i] = Some(value);
    }

    /// Puts `value`, which may be nothing, into slot `i`.
    pub fn put(&mut self, i: usize, value: Option<T>)
        requires
            i < old(self)@.len(),
        ensures
            final(self)@ == old(self)@.update(i as int, value),
    {
        self.slots[i] = value;
    }

    /// Detaches the component from index `i`. Nothing happens where `i` has
    /// none or is beyond the last slot.
    pub fn remove(&mut self, i: usize)
        ensures
            final(self)@ == (if i < old(self)@.len() {
                old(self)@.update(i as int, None)
            } else {
                old(self)@
            }),
    {
        if i < self.slots.len() {
            self.slots[i] = None;
        }
    }

    /// Adds one slot, holding `value`, behind the last one.
    pub fn push(&mut self, value: Option<T>)
        ensures
            final(self)@ == old(self)@.push(value),
    {
        self.slots.push(value);
    }

    /// Whether no index has this component.
    pub fn is_empty(&self) -> (r: bool)
        ensures
            r == self.spec_is_empty(),
    {
        let n = self.slots.len();
        let mut i: usize = 0;
        while i < n
            invariant
                n == self@.len(),
                i <= n,
                forall|j: int| 0 <= j < i ==> self@[j] is None,
            decreases n - i,
        {
            if self.slots[i].is_some() {
                return false;
            }
            i += 1;
        }
        true
    }
}

} // verus!
