use vstd::prelude::*;
use vstd::pervasive::VecAdditionalExecFns;

verus! {

/// A flat table of entities with stable integer keys.
///
/// Ownership of each entity graph lives in one arena per entity type; a
/// child's back-reference to its parent is a key into the parent's arena.
/// Removing an entity empties its slot but never shifts the others, so a key
/// stays valid for the lifetime of the arena and a lookup on a removed or
/// never-issued key is simply a miss.
pub struct Arena<T> {
    slots: Vec<Option<T>>,
}

impl<T> Arena<T> {
    /// The slot table: each issued key in order, holding the entity or,
    /// after removal, nothing.
    pub closed spec fn slots(self) -> Seq<Option<T>> {
        self.slots@
    }

    /// The entity stored under a key, if the key was issued and the entity
    /// was not removed.
    pub open spec fn spec_get(self, k: usize) -> Option<T> {
        if k < self.slots().len() {
            self.slots()[k as int]
        } else {
            None
        }
    }

    /// An empty arena.
    pub fn new() -> (a: Arena<T>)
        ensures
            a.slots() == Seq::<Option<T>>::empty(),
    {
        Arena { slots: Vec::new() }
    }

    /// Store an entity and return its key.
    pub fn add(&mut self, v: T) -> (k: usize)
        ensures
            final(self).slots() == old(self).slots().push(Some(v)),
            k == old(self).slots().len(),
            final(self).spec_get(k) == Some(v),
    {
        let k = self.slots.len();
        self.slots.push(Some(v));
        k
    }

    /// Look up the entity under a key; a removed or never-issued key is a
    /// miss.
    pub fn get(&self, k: usize) -> (r: Option<&T>)
        ensures
            match self.spec_get(k) {
                Some(v) => r matches Some(e) && *e == v,
                None => r is None,
            },
    {
        if k < self.slots.len() {
            match &self.slots[k] {
                Some(v) => Some(v),
                None => None,
            }
        } else {
            None
        }
    }

    /// Replace the entity under an occupied key; reports whether the key was
    /// occupied, and leaves the arena unchanged when it was not.
    pub fn set(&mut self, k: usize, v: T) -> (ok: bool)
        ensures
            ok == (old(self).spec_get(k) is Some),
            ok ==> final(self).slots() == old(self).slots().update(k as int, Some(v)),
            !ok ==> final(self).slots() == old(self).slots(),
    {
        if k < self.slots.len() {
            let occupied = match &self.slots[k] {
                Some(_) => true,
                None => false,
            };
            if occupied {
                self.slots.set(k, Some(v));
                return true;
            }
        }
        false
    }

    /// Remove and return the entity under a key; a miss removes nothing.
    pub fn remove(&mut self, k: usize) -> (r: Option<T>)
        ensures
            r == old(self).spec_get(k),
            r is Some ==> final(self).slots() == old(self).slots().update(k as int, None),
            r is None ==> final(self).slots() == old(self).slots(),
            final(self).spec_get(k) is None,
    {
        if k < self.slots.len() {
            let occupied = match &self.slots[k] {
                Some(_) => true,
                None => false,
            };
            if occupied {
                let mut taken: Option<T> = None;
                self.slots.set_and_swap(k, &mut taken);
                taken
            } else {
                None
            }
        } else {
            None
        }
    }
}

} // verus!
