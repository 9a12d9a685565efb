//! Entity registry and typed component tables.
//!
//! An entity is an index. A table maps each entity index below its length to
//! an optional component value; a join is a scan over indices that keeps the
//! entities present in every table asked for.
use vstd::prelude::*;

verus! {

/// Identifier of an entity: its index in every table.
pub type Entity = usize;

/// Appending to a list keeps what it held and adds the new member.
proof fn lemma_push_keeps(s: Seq<Entity>, x: Entity)
    ensures
        s.push(x).contains(x),
        forall|y: Entity| s.contains(y) ==> s.push(x).contains(y),
{
    assert(s.push(x)[s.len() as int] == x);
    assert forall|y: Entity| s.contains(y) implies s.push(x).contains(y) by {
        let k = choose|k: int| 0 <= k < s.len() && s[k] == y;
        assert(s.push(x)[k] == y);
    }
}

/// A sparse table from entity to component value.
pub struct Table<T> {
    slots: Vec<Option<T>>,
}

impl<T: Copy> Table<T> {
    /// Slot `i` holds the component of entity `i`, if it has one.
    pub closed spec fn view(&self) -> Seq<Option<T>> {
        self.slots@
    }

    pub fn new() -> (r: Table<T>)
        ensures
            r@ == Seq::<Option<T>>::empty(),
    {
        Table { slots: Vec::new() }
    }

    pub fn len(&self) -> (r: usize)
        ensures
            r == self@.len(),
    {
        self.slots.len()
    }

    /// Makes room for one more entity, which has no component here yet.
    pub fn push_empty(&mut self)
        ensures
            final(self)@ == old(self)@.push(None),
    {
        self.slots.push(None);
    }

    pub fn get(&self, e: Entity) -> (r: Option<T>)
        requires
            e < self@.len(),
        ensures
            r == self@[e as int],
    {
        self.slots[e]
    }

    pub fn contains(&self, e: Entity) -> (r: bool)
        requires
            e < self@.len(),
        ensures
            r == self@[e as int].is_some(),
    {
        self.slots[e].is_some()
    }

    /// Gives `e` the component `v`; returns the one it replaced.
    pub fn insert(&mut self, e: Entity, v: T) -> (r: Option<T>)
        requires
            e < old(self)@.len(),
        ensures
            r == old(self)@[e as int],
            final(self)@ == old(self)@.update(e as int, Some(v)),
    {
        let prev = self.slots[e];
        self.slots.set(e, Some(v));
        prev
    }

    /// Takes the component of `e` away; returns it.
    pub fn remove(&mut self, e: Entity) -> (r: Option<T>)
        requires
            e < old(self)@.len(),
        ensures
            r == old(self)@[e as int],
            final(self)@ == old(self)@.update(e as int, None),
    {
        let prev = self.slots[e];
        self.slots.set(e, None);
        prev
    }

    /// The entities that have a component here, in index order.
    pub fn entities(&self) -> (r: Vec<Entity>)
        ensures
            forall|k: int| 0 <= k < r@.len() ==> (r@[k] as int) < self@.len() && self@[r@[k] as int].is_some(),
            forall|k: int, l: int| 0 <= k < l < r@.len() ==> r@[k] < r@[l],
            forall|e: int| 0 <= e < self@.len() && (#[trigger] self@[e]).is_some() ==> r@.contains(e as usize),
    {
        let mut r: Vec<Entity> = Vec::new();
        let mut i: usize = 0;
        while i < self.slots.len()
            invariant
                i <= self@.len(),
                self@ == self.slots@,
                forall|k: int| 0 <= k < r@.len() ==> (r@[k] as int) < i && self@[r@[k] as int].is_some(),
                forall|k: int, l: int| 0 <= k < l < r@.len() ==> r@[k] < r@[l],
                forall|e: int| 0 <= e < i && (#[trigger] self@[e]).is_some() ==> r@.contains(e as usize),
            decreases self@.len() - i,
        {
            let ghost before = r@;
            if self.slots[i].is_some() {
                r.push(i);
                proof { lemma_push_keeps(before, i); }
            }
            i += 1;
        }
        r
    }
}

/// The entities present in both tables (an inner join), in index order.
pub fn join<A: Copy, B: Copy>(a: &Table<A>, b: &Table<B>) -> (r: Vec<Entity>)
    requires
        a@.len() == b@.len(),
    ensures
        forall|k: int| 0 <= k < r@.len() ==> (r@[k] as int) < a@.len() && a@[r@[k] as int].is_some() && b@[r@[k] as int].is_some(),
        forall|k: int, l: int| 0 <= k < l < r@.len() ==> r@[k] < r@[l],
        forall|e: int| 0 <= e < a@.len() && (#[trigger] a@[e]).is_some() && b@[e].is_some() ==> r@.contains(e as usize),
{
    let mut r: Vec<Entity> = Vec::new();
    let mut i: usize = 0;
    while i < a.len()
        invariant
            i <= a@.len(),
            a@.len() == b@.len(),
            forall|k: int| 0 <= k < r@.len() ==> (r@[k] as int) < i && a@[r@[k] as int].is_some() && b@[r@[k] as int].is_some(),
            forall|k: int, l: int| 0 <= k < l < r@.len() ==> r@[k] < r@[l],
            forall|e: int| 0 <= e < i && (#[trigger] a@[e]).is_some() && b@[e].is_some() ==> r@.contains(e as usize),
        decreases a@.len() - i,
    {
        let ghost before = r@;
        if a.contains(i) && b.contains(i) {
            r.push(i);
            proof { lemma_push_keeps(before, i); }
        }
        i += 1;
    }
    r
}

/// The entities present in `a` and absent from `b` (an anti-join), in index
/// order.
pub fn without<A: Copy, B: Copy>(a: &Table<A>, b: &Table<B>) -> (r: Vec<Entity>)
    requires
        a@.len() == b@.len(),
    ensures
        forall|k: int| 0 <= k < r@.len() ==> (r@[k] as int) < a@.len() && a@[r@[k] as int].is_some() && b@[r@[k] as int].is_none(),
        forall|k: int, l: int| 0 <= k < l < r@.len() ==> r@[k] < r@[l],
        forall|e: int| 0 <= e < a@.len() && (#[trigger] a@[e]).is_some() && b@[e].is_none() ==> r@.contains(e as usize),
{
    let mut r: Vec<Entity> = Vec::new();
    let mut i: usize = 0;
    while i < a.len()
        invariant
            i <= a@.len(),
            a@.len() == b@.len(),
            forall|k: int| 0 <= k < r@.len() ==> (r@[k] as int) < i && a@[r@[k] as int].is_some() && b@[r@[k] as int].is_none(),
            forall|k: int, l: int| 0 <= k < l < r@.len() ==> r@[k] < r@[l],
            forall|e: int| 0 <= e < i && (#[trigger] a@[e]).is_some() && b@[e].is_none() ==> r@.contains(e as usize),
        decreases a@.len() - i,
    {
        let ghost before = r@;
        if a.contains(i) && !b.contains(i) {
            r.push(i);
            proof { lemma_push_keeps(before, i); }
        }
        i += 1;
    }
    r
}

/// Allocates entity identifiers and tracks which are live.
///
/// Identifiers are handed out in increasing order and never reused.
pub struct Registry {
    alive: Vec<bool>,
}

impl Registry {
    pub closed spec fn view(&self) -> Seq<bool> {
        self.alive@
    }

    pub fn new() -> (r: Registry)
        ensures
            r@ == Seq::<bool>::empty(),
    {
        Registry { alive: Vec::new() }
    }

    pub fn len(&self) -> (r: usize)
        ensures
            r == self@.len(),
    {
        self.alive.len()
    }

    /// A new live entity, one past every identifier handed out before.
    pub fn create(&mut self) -> (e: Entity)
        ensures
            e == old(self)@.len(),
            final(self)@ == old(self)@.push(true),
            final(self)@.len() <= usize::MAX,
    {
        self.alive.push(true);
        self.alive.len() - 1
    }

    pub fn is_alive(&self, e: Entity) -> (r: bool)
        ensures
            r == (e < self@.len() && self@[e as int]),
    {
        e < self.alive.len() && self.alive[e]
    }

    /// Marks `e` no longer live; returns whether it was.
    pub fn destroy(&mut self, e: Entity) -> (r: bool)
        ensures
            r == (e < old(self)@.len() && old(self)@[e as int]),
            e < old(self)@.len() ==> final(self)@ == old(self)@.update(e as int, false),
            e >= old(self)@.len() ==> final(self)@ == old(self)@,
    {
        if e < self.alive.len() {
            let was = self.alive[e];
            self.alive.set(e, false);
            was
        } else {
            false
        }
    }

    /// The live entities, in index order.
    pub fn live(&self) -> (r: Vec<Entity>)
        ensures
            forall|k: int| 0 <= k < r@.len() ==> (r@[k] as int) < self@.len() && self@[r@[k] as int],
            forall|k: int, l: int| 0 <= k < l < r@.len() ==> r@[k] < r@[l],
            forall|e: int| 0 <= e < self@.len() && #[trigger] self@[e] ==> r@.contains(e as usize),
    {
        let mut r: Vec<Entity> = Vec::new();
        let mut i: usize = 0;
        while i < self.alive.len()
            invariant
                i <= self@.len(),
                self@ == self.alive@,
                forall|k: int| 0 <= k < r@.len() ==> (r@[k] as int) < i && self@[r@[k] as int],
                forall|k: int, l: int| 0 <= k < l < r@.len() ==> r@[k] < r@[l],
                forall|e: int| 0 <= e < i && #[trigger] self@[e] ==> r@.contains(e as usize),
            decreases self@.len() - i,
        {
            let ghost before = r@;
            if self.alive[i] {
                r.push(i);
                proof { lemma_push_keeps(before, i); }
            }
            i += 1;
        }
        r
    }
}

} // verus!
