//! A growable free-slot container: a fixed layout of slots, each either
//! occupied or free (a tombstone), with insertion at the lowest free index.
//! Indices are stable: inserting never moves an existing element.

use vstd::prelude::*;

verus! {

pub struct FreeList<T> {
    slots: Vec<Option<T>>,
}

impl<T> View for FreeList<T> {
    type V = Seq<Option<T>>;

    closed spec fn view(&self) -> Seq<Option<T>> {
        self.slots@
    }
}

/// How many slots a full container gains when it has to grow.
pub open spec fn growth_amount(cap: nat) -> nat {
    if cap <= 1 {
        1
    } else {
        cap / 2
    }
}

impl<T> FreeList<T> {
    pub fn new() -> (r: Self)
        ensures
            r@ == Seq::<Option<T>>::empty(),
    {
        Self { slots: Vec::new() }
    }

    pub fn with_capacity(cap: usize) -> (r: Self)
        ensures
            r@.len() == cap,
            forall|i: int| 0 <= i < cap ==> r@[i] is None,
    {
        let mut slots: Vec<Option<T>> = Vec::new();
        let mut i: usize = 0;
        while i < cap
            invariant
                i <= cap,
                slots@.len() == i,
                forall|j: int| 0 <= j < i ==> slots@[j] is None,
            decreases cap - i,
        {
            slots.push(None);
            i = i + 1;
        }
        Self { slots }
    }

    /// Inserts at the lowest free index, growing when every slot is occupied.
    pub fn push_first(&mut self, value: T) -> (i: usize)
        ensures
            i <= old(self)@.len(),
            i < final(self)@.len(),
            final(self)@[i as int] == Some(value),
            forall|j: int| 0 <= j < i ==> old(self)@[j] is Some,
            forall|j: int|
                0 <= j < old(self)@.len() && j != i ==> final(self)@[j] == old(self)@[j],
            i < old(self)@.len() ==> old(self)@[i as int] is None && final(self)@.len() == old(
                self,
            )@.len(),
            i == old(self)@.len() ==> final(self)@.len() == old(self)@.len() + growth_amount(
                old(self)@.len(),
            ) && (forall|j: int| i < j < final(self)@.len() ==> final(self)@[j] is None),
    {
        let insert_index: usize = match self.find_empty_index() {
            Some(p) => p,
            None => {
                let idx = self.slots.len();
                self.grow();
                idx
            },
        };
        self.slots.set(insert_index, Some(value));
        insert_index
    }

    pub fn as_slice(&self) -> (r: &[Option<T>])
        ensures
            r@ == self@,
    {
        self.slots.as_slice()
    }

    pub fn as_slice_mut(&mut self) -> (r: &mut [Option<T>])
        ensures
            r@ == old(self)@,
            final(r)@ == final(self)@,
    {
        self.slots.as_mut_slice()
    }
}

impl<T> FreeList<T> {
    fn grow(&mut self)
        ensures
            final(self)@.len() == old(self)@.len() + growth_amount(old(self)@.len()),
            forall|j: int| 0 <= j < old(self)@.len() ==> final(self)@[j] == old(self)@[j],
            forall|j: int|
                old(self)@.len() <= j < final(self)@.len() ==> final(self)@[j] is None,
    {
        let cap = self.slots.len();
        let additional: usize = if cap <= 1 {
            1
        } else {
            cap / 2
        };
        let mut added: usize = 0;
        while added < additional
            invariant
                added <= additional,
                self.slots@.len() == old(self)@.len() + added,
                forall|j: int| 0 <= j < old(self)@.len() ==> self.slots@[j] == old(self)@[j],
                forall|j: int|
                    old(self)@.len() <= j < self.slots@.len() ==> self.slots@[j] is None,
            decreases additional - added,
        {
            self.slots.push(None);
            added = added + 1;
        }
    }

    fn find_empty_index(&self) -> (r: Option<usize>)
        ensures
            match r {
                Some(i) => i < self@.len() && self@[i as int] is None && (forall|k: int|
                    0 <= k < i ==> self@[k] is Some),
                None => forall|k: int| 0 <= k < self@.len() ==> self@[k] is Some,
            },
    {
        let mut i: usize = 0;
        while i < self.slots.len()
            invariant
                i <= self@.len(),
                forall|k: int| 0 <= k < i ==> self@[k] is Some,
            decreases self@.len() - i,
        {
            if self.slots[i].is_none() {
                return Some(i);
            }
            i = i + 1;
        }
        None
    }
}

} // verus!
