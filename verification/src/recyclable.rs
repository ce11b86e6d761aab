//! The capability a type needs before a pool can hold it: a way to make a
//! fresh value, and a way to wipe a used one.

use std::collections::{BTreeMap, BTreeSet, HashMap, HashSet, VecDeque};
use std::hash::Hash;
use vstd::prelude::*;

verus! {

/// Indicates that an object can be used inside a `Pool`.
///
/// Types implementing this trait must be `Send`, since the pool itself can
/// be used across threads.
///
/// `fresh` says what a value looks like when it carries no trace of earlier
/// use. Both operations must arrive there: `new` by building such a value,
/// `recycle` by wiping the one it is given. A pool hands recycled values out
/// again as they are, so a `recycle` that leaves state behind shows up as
/// stale data at the next caller; nothing in the pool can detect that for an
/// implementation that was not verified against this contract.
///
/// `recycle` is free to keep what the value has allocated: only what can be
/// observed of the value has to be that of a fresh one.
pub trait Recyclable: Send {
    /// Whether this value is indistinguishable from a newly made one.
    ///
    /// An implementation that does not say what that means for its type
    /// makes no promise: every value then counts as fresh.
    open spec fn fresh(&self) -> bool {
        true
    }

    /// Creates a new value of this type.
    fn new() -> (r: Self) where Self: Sized
        ensures
            r.fresh(),
    ;

    /// Resets this object, allowing it to be reused in the future without
    /// retaining its old state.
    fn recycle(&mut self)
        ensures
            final(self).fresh(),
    ;
}

/// `String::clear` truncates the string to length zero and keeps its buffer:
/// afterwards the string holds no characters.
pub assume_specification[ String::clear ](s: &mut String)
    ensures
        final(s)@ == Seq::<char>::empty(),
;

impl Recyclable for String {
    open spec fn fresh(&self) -> bool {
        self@ == Seq::<char>::empty()
    }

    fn new() -> (r: Self) {
        String::new()
    }

    fn recycle(&mut self) {
        self.clear()
    }
}

impl<T: Send> Recyclable for Vec<T> {
    open spec fn fresh(&self) -> bool {
        self@ == Seq::<T>::empty()
    }

    fn new() -> (r: Self) {
        Vec::new()
    }

    fn recycle(&mut self) {
        self.clear()
    }
}

impl<T: Send> Recyclable for VecDeque<T> {
    open spec fn fresh(&self) -> bool {
        self@ == Seq::<T>::empty()
    }

    fn new() -> (r: Self) {
        VecDeque::new()
    }

    fn recycle(&mut self) {
        self.clear()
    }
}

impl<K: Eq + Hash + Send, V: Send> Recyclable for HashMap<K, V> {
    open spec fn fresh(&self) -> bool {
        self@ == Map::<K, V>::empty()
    }

    fn new() -> (r: Self) {
        HashMap::new()
    }

    fn recycle(&mut self) {
        self.clear()
    }
}

impl<T: Eq + Hash + Send> Recyclable for HashSet<T> {
    open spec fn fresh(&self) -> bool {
        self@ == Set::<T>::empty()
    }

    fn new() -> (r: Self) {
        HashSet::new()
    }

    fn recycle(&mut self) {
        self.clear()
    }
}

impl<K: Ord + Send, V: Send> Recyclable for BTreeMap<K, V> {
    open spec fn fresh(&self) -> bool {
        self@ == Map::<K, V>::empty()
    }

    fn new() -> (r: Self) {
        BTreeMap::new()
    }

    fn recycle(&mut self) {
        self.clear()
    }
}

impl<T: Ord + Send> Recyclable for BTreeSet<T> {
    open spec fn fresh(&self) -> bool {
        self@ == Set::<T>::empty()
    }

    fn new() -> (r: Self) {
        BTreeSet::new()
    }

    fn recycle(&mut self) {
        self.clear()
    }
}

impl Recyclable for u8 {
    open spec fn fresh(&self) -> bool {
        *self == 0
    }

    fn new() -> (r: Self) {
        0
    }

    fn recycle(&mut self) {
        *self = 0
    }
}

impl Recyclable for u16 {
    open spec fn fresh(&self) -> bool {
        *self == 0
    }

    fn new() -> (r: Self) {
        0
    }

    fn recycle(&mut self) {
        *self = 0
    }
}

impl Recyclable for u32 {
    open spec fn fresh(&self) -> bool {
        *self == 0
    }

    fn new() -> (r: Self) {
        0
    }

    fn recycle(&mut self) {
        *self = 0
    }
}

impl Recyclable for u64 {
    open spec fn fresh(&self) -> bool {
        *self == 0
    }

    fn new() -> (r: Self) {
        0
    }

    fn recycle(&mut self) {
        *self = 0
    }
}

impl Recyclable for i8 {
    open spec fn fresh(&self) -> bool {
        *self == 0
    }

    fn new() -> (r: Self) {
        0
    }

    fn recycle(&mut self) {
        *self = 0
    }
}

impl Recyclable for i16 {
    open spec fn fresh(&self) -> bool {
        *self == 0
    }

    fn new() -> (r: Self) {
        0
    }

    fn recycle(&mut self) {
        *self = 0
    }
}

impl Recyclable for i32 {
    open spec fn fresh(&self) -> bool {
        *self == 0
    }

    fn new() -> (r: Self) {
        0
    }

    fn recycle(&mut self) {
        *self = 0
    }
}

impl Recyclable for i64 {
    open spec fn fresh(&self) -> bool {
        *self == 0
    }

    fn new() -> (r: Self) {
        0
    }

    fn recycle(&mut self) {
        *self = 0
    }
}

} // verus!
