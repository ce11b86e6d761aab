//! One thread's spare objects.
//!
//! A pool keeps a separate store for every thread that touches it. A store
//! is a stack: what was put back last is handed out first. Everything a
//! pool does to its spare objects is done here, on one store at a time, and
//! the contracts here are what the rules of the pool are proved from.

use crate::builder::{PoolBuilder, Supplier};
use crate::recyclable::Recyclable;
use vstd::prelude::*;

verus! {

/// The spare objects of one thread, bottom first.
pub struct Store<T> {
    items: Vec<T>,
}

impl<T> View for Store<T> {
    type V = Seq<T>;

    closed spec fn view(&self) -> Seq<T> {
        self.items@
    }
}

/// An acquire that found the store as `before` handed out `got` and left
/// the store as `after`: the top object leaves the store, or, where the
/// store is empty, a newly constructed object is handed out and the store
/// stays empty.
pub open spec fn acquires<T: Recyclable, S: Supplier<T>>(
    settings: PoolBuilder<T, S>,
    before: Seq<T>,
    got: T,
    after: Seq<T>,
) -> bool {
    if before.len() > 0 {
        got == before.last() && after == before.drop_last()
    } else {
        settings.creates(got) && after == before
    }
}

/// A release turned the store `before` into `after`: one object came on
/// top, reset, and nothing below it changed.
pub open spec fn releases<T: Recyclable>(before: Seq<T>, after: Seq<T>) -> bool {
    &&& after.len() == before.len() + 1
    &&& after.drop_last() == before
    &&& after.last().fresh()
}

/// `store` is the first store of a pool built from `settings` and `items`:
/// the items in their order at the bottom, and above them as many newly
/// constructed objects as it takes to reach the starting size.
pub open spec fn stocks<T: Recyclable, S: Supplier<T>>(
    settings: PoolBuilder<T, S>,
    items: Seq<T>,
    store: Seq<T>,
) -> bool {
    &&& store.len() == if items.len() < settings.starting_size() {
        settings.starting_size() as nat
    } else {
        items.len()
    }
    &&& store.subrange(0, items.len() as int) == items
    &&& forall|i: int| items.len() <= i < store.len() ==> settings.creates(#[trigger] store[i])
}

impl<T: Recyclable> Store<T> {
    /// A store without objects.
    pub fn new() -> (r: Self)
        ensures
            r@ == Seq::<T>::empty(),
    {
        Store { items: Vec::new() }
    }

    /// The number of spare objects.
    pub fn len(&self) -> (n: usize)
        ensures
            n == self@.len(),
    {
        self.items.len()
    }

    /// The store that a pool starts with: `items`, topped up with newly
    /// constructed objects to the starting size of `settings`.
    pub fn stock<S: Supplier<T>>(settings: &PoolBuilder<T, S>, items: Vec<T>) -> (r: Self)
        ensures
            stocks(*settings, items@, r@),
    {
        let ghost given = items@;
        let target = settings.starting_size();
        let mut store = Store { items };
        while store.items.len() < target
            invariant
                target == settings.starting_size(),
                given.len() <= store@.len(),
                given.len() < target ==> store@.len() <= target,
                given.len() >= target ==> store@.len() == given.len(),
                store@.subrange(0, given.len() as int) == given,
                forall|i: int|
                    given.len() <= i < store@.len() ==> settings.creates(#[trigger] store@[i]),
            decreases target - store.items.len(),
        {
            let object = settings.create();
            store.items.push(object);
        }
        store
    }

    /// Hands out the top object, or a newly constructed one where the store
    /// is empty.
    pub fn acquire<S: Supplier<T>>(&mut self, settings: &PoolBuilder<T, S>) -> (r: T)
        ensures
            acquires(*settings, old(self)@, r, final(self)@),
    {
        match self.items.pop() {
            Some(object) => object,
            None => settings.create(),
        }
    }

    /// Resets `value` and puts it on top.
    pub fn release(&mut self, value: T)
        ensures
            releases(old(self)@, final(self)@),
    {
        let mut value = value;
        value.recycle();
        self.items.push(value);
        assert(self@.drop_last() =~= old(self)@);
    }
}

} // verus!
