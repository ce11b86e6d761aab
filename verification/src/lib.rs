//! A thread-safe object pool.
//!
//! An object pool is used to reuse objects without reallocating them. When
//! an object is requested from a pool, it is taken out of the pool; once it
//! is released, it is reset and returned to the pool, and can be retrieved
//! once more.
//!
//! The main type of this crate is [`Pool`]. It can pool objects which
//! implement [`Recyclable`], a trait which allows the pool to initialize
//! and reset an object. A pool is configured by a [`PoolBuilder`], which
//! [`builder`] creates: with a starting size, and with a supplier, a
//! closure that the pool then calls in place of `Recyclable::new` whenever
//! it needs a new object. The supplier is used to construct only, never to
//! reset.
//!
//! # Thread safety
//! A pool keeps a separate [`Store`] for each thread, so that threads never
//! contend for one. An object goes back to the store of the thread that
//! releases it, which need not be the thread that acquired it. What a
//! thread leaves in its store when it ends stays in the pool until the pool
//! is dropped: the threads that run then cannot reach it, though a thread
//! that starts later may come to own that store.
//!
//! # What is proved
//! All that a pool does to its spare objects it does to one store at a
//! time, through [`Store::stock`], [`Store::acquire`] and
//! [`Store::release`]. Their contracts say exactly what is handed out and
//! what the store holds afterwards, and the rules of the pool are proved
//! from them in the [`laws`] module.
//!
//! Which store a method of `Pool` works on depends on the calling thread,
//! so the contracts of those methods cannot speak of what a store holds at
//! the moment. They state what holds of every store of the pool at all
//! times: each spare object was reset, or constructed as the pool's
//! settings say, or given to the pool when it was built
//! ([`Pool::admits`]). What a pool hands out is therefore never an object
//! in the state in which somebody released it. A program that needs the
//! exact contracts on every step, and no second thread, can hold a `Store`
//! itself.
//!
//! # Releasing
//! A [`Recycled`] handle returns its object by [`Recycled::release`]. A
//! handle that is dropped without it takes its object along: the object is
//! never reset and never seen by the pool again, as if it had been
//! detached.
//!
//! # Suppliers and resets that use their own pool
//! While a pool constructs or resets an object for a thread, that thread's
//! store is set aside and the pool shows an empty one in its place. A
//! supplier or a `recycle` that acquires from the pool it is working for
//! therefore gets a new object, and what it releases into that pool is
//! dropped when the outer operation completes.

mod builder;
pub mod laws;
mod recyclable;
mod store;

pub use builder::{
    builder, without_supplier_creates_fresh, ByNew, FnSupplier, PoolBuilder, Supplier,
};
pub use recyclable::Recyclable;
pub use store::{acquires, releases, stocks, Store};

use std::cell::Cell;
use std::cmp::Ordering;
use std::sync::Arc;
use thread_local::ThreadLocal;
use vstd::std_specs::cmp::{PartialEqSpec, PartialEqSpecImpl, PartialOrdSpec, PartialOrdSpecImpl};
use vstd::prelude::*;

verus! {

/// `thread_local::ThreadLocal`: one value of type `T` for each thread that
/// asks for one. Nothing is said of what it holds.
#[verifier::external_type_specification]
#[verifier::external_body]
#[verifier::reject_recursive_types(T)]
pub struct ExThreadLocal<T: Send>(ThreadLocal<T>);

/// `ThreadLocal::new`: a thread-local that holds no value yet for any
/// thread. The contract claims nothing of the result.
#[verifier::external_body]
fn no_locals<T: Send>() -> ThreadLocal<T> {
    ThreadLocal::new()
}

/// `ThreadLocal::get_or`: the value of the calling thread, made by `create`
/// if that thread has none yet. Which value that is depends on the thread
/// and on what went before, so the contract claims nothing of the result;
/// it asks that `create` can be called, since it may be.
pub assume_specification<T: Send, F>[ ThreadLocal::<T>::get_or ](
    locals: &ThreadLocal<T>,
    create: F,
) -> &T where F: FnOnce() -> T
    requires
        call_requires(create, ()),
;

/// `std::cell::Cell`: a value that can be exchanged through a shared
/// reference. Nothing is said of what it holds.
#[verifier::external_type_specification]
#[verifier::external_body]
#[verifier::reject_recursive_types(V)]
pub struct ExCell<V: ?Sized>(Cell<V>);

/// `Cell::new`: a cell that holds `value`. What a cell holds can change
/// while the cell stays the same to whoever looks at it, so the contract
/// claims nothing of the result.
#[verifier::external_body]
fn cell_with<V>(value: V) -> Cell<V> {
    Cell::new(value)
}

/// `Cell::replace`: puts `value` into the cell and returns what the cell
/// held. What that was is not known from the cell, so the contract claims
/// nothing of the result.
pub assume_specification<V>[ Cell::<V>::replace ](cell: &Cell<V>, value: V) -> V;

/// `Arc::ptr_eq`: whether the two pointers point to the same allocation.
/// Where they do, they point to the same value; the contract claims no
/// more, and nothing where the answer is no.
#[verifier::external_body]
fn same_allocation<V>(a: &Arc<V>, b: &Arc<V>) -> (same: bool)
    ensures
        same ==> *a == *b,
{
    Arc::ptr_eq(a, b)
}

/// What the threads of a pool share: its settings, and a record of the
/// items that it was built with.
struct Shared<T: Recyclable, S: Supplier<T>> {
    settings: PoolBuilder<T, S>,
    given: Ghost<Seq<T>>,
}

impl<T: Recyclable, S: Supplier<T>> Shared<T, S> {
    /// Whether `v` may be among the spare objects of the pool.
    spec fn admits(&self, v: T) -> bool {
        admitted(self.settings, self.given@, v)
    }
}

/// Whether `v` may be among the spare objects of a pool with these settings
/// that was built with the items `given`: it was reset, or constructed as
/// the settings say, or it is one of the items.
pub open spec fn admitted<T: Recyclable, S: Supplier<T>>(
    settings: PoolBuilder<T, S>,
    given: Seq<T>,
    v: T,
) -> bool {
    v.fresh() || settings.creates(v) || given.contains(v)
}

/// The store of one thread, and the pool that it belongs to.
///
/// A thread-local hands each thread a cell of its own but cannot say of
/// which pool. So a shelf names its pool, and a pool takes an object from a
/// shelf only after it has found its own name there. That is what lets
/// `Pool::get` promise that the object is one that the pool admits.
struct Shelf<T: Recyclable, S: Supplier<T>> {
    owner: Arc<Shared<T, S>>,
    store: Store<T>,
}

impl<T: Recyclable, S: Supplier<T>> Shelf<T, S> {
    /// Every spare object is one that the shelf's pool admits.
    #[verifier::type_invariant]
    spec fn all_admitted(&self) -> bool {
        forall|i: int| 0 <= i < self.store@.len() ==> self.owner.admits(#[trigger] self.store@[i])
    }
}

/// The cell of a thread that has not touched the pool before. A cell holds
/// a shelf, or nothing: that it does before its thread has released an
/// object, and while the pool works on the thread's shelf.
fn init<T: Recyclable, S: Supplier<T>>() -> Cell<Option<Shelf<T, S>>> {
    cell_with(None)
}

/// A thread-safe object pool, used to reuse objects without reallocating.
///
/// `S` is the supplier that constructs the pool's objects: `ByNew` unless
/// `PoolBuilder::with_supplier` has set another.
///
/// See the crate-level documentation for more information.
#[verifier::reject_recursive_types(T)]
#[verifier::reject_recursive_types(S)]
pub struct Pool<T: Recyclable, S: Supplier<T> = ByNew> {
    shared: Arc<Shared<T, S>>,
    values: ThreadLocal<Cell<Option<Shelf<T, S>>>>,
}

impl<T: Recyclable> Pool<T> {
    /// Creates a new pool with default settings.
    ///
    /// This is equivalent to `swimmer::builder().build()`.
    pub fn new() -> (pool: Pool<T>)
        ensures
            pool.settings().starting_size() == 0,
            pool.given() == Seq::<T>::empty(),
            forall|v: T|
                #![trigger pool.settings().creates(v)]
                #![trigger v.fresh()]
                pool.settings().creates(v) == v.fresh(),
    {
        builder().build()
    }

    /// Creates a new pool with the specified starting size. The pool will
    /// construct `size` initial values and insert them into the store of
    /// the calling thread.
    ///
    /// This is equivalent to
    /// `swimmer::builder().with_starting_size(size).build()`.
    pub fn with_size(size: usize) -> (pool: Pool<T>)
        ensures
            pool.settings().starting_size() == size,
            pool.given() == Seq::<T>::empty(),
            forall|v: T|
                #![trigger pool.settings().creates(v)]
                #![trigger v.fresh()]
                pool.settings().creates(v) == v.fresh(),
    {
        builder().with_starting_size(size).build()
    }
}

impl<T: Recyclable> Default for Pool<T> {
    /// The pool that `Pool::new` gives.
    fn default() -> (pool: Self)
        ensures
            pool.settings().starting_size() == 0,
            pool.given() == Seq::<T>::empty(),
            forall|v: T|
                #![trigger pool.settings().creates(v)]
                #![trigger v.fresh()]
                pool.settings().creates(v) == v.fresh(),
    {
        Pool::new()
    }
}

impl<T: Recyclable, S: Supplier<T>> PoolBuilder<T, S> {
    /// Builds a pool using the configured settings.
    ///
    /// The store of the calling thread starts as `Store::stock` makes it
    /// from no items.
    pub fn build(self) -> (pool: Pool<T, S>)
        ensures
            pool.settings() == self,
            pool.given() == Seq::<T>::empty(),
    {
        self.build_with(Vec::new())
    }

    /// Builds a pool using the configured settings, and fills it with the
    /// given items.
    ///
    /// The store of the calling thread starts as `Store::stock` makes it
    /// from `items`.
    pub fn build_with(self, items: Vec<T>) -> (pool: Pool<T, S>)
        ensures
            pool.settings() == self,
            pool.given() == items@,
    {
        let ghost given = items@;
        let store = Store::stock(&self, items);
        let shared = Arc::new(Shared { settings: self, given: Ghost(given) });
        assert forall|i: int| 0 <= i < store@.len() implies shared.admits(#[trigger] store@[i]) by {
            if i < given.len() {
                assert(store@.subrange(0, given.len() as int)[i] == store@[i]);
            }
        }
        let shelf = Shelf { owner: shared.clone(), store };
        let values = no_locals();
        let cell = values.get_or(|| init());
        let _ = cell.replace(Some(shelf));
        Pool { shared, values }
    }
}

impl<T: Recyclable, S: Supplier<T>> Pool<T, S> {
    /// The settings that the pool was built from.
    pub closed spec fn settings(&self) -> PoolBuilder<T, S> {
        self.shared.settings
    }

    /// The items that the pool was built with.
    pub closed spec fn given(&self) -> Seq<T> {
        self.shared.given@
    }

    /// Whether `v` may be among the spare objects of this pool: it was
    /// reset, or constructed as the settings say, or given to the pool when
    /// it was built.
    pub open spec fn admits(&self, v: T) -> bool {
        admitted(self.settings(), self.given(), v)
    }

    /// Retrieves a value from the pool: the one that the calling thread
    /// released last and has not taken again, or a new one if the thread's
    /// store is empty.
    ///
    /// The value is returned in a `Recycled` handle, which returns the
    /// object to the pool when released.
    pub fn get(&self) -> (handle: Recycled<'_, T, S>)
        ensures
            handle.pool() == *self,
            self.admits(handle@),
    {
        let value = self.get_raw_value();
        Recycled { value, pool: self }
    }

    /// Returns the current size of the pool: the number of spare objects
    /// that the calling thread has in it.
    ///
    /// When an object is removed from the pool, the size is decremented;
    /// when it is returned, the size is incremented.
    pub fn size(&self) -> usize {
        let cell = self.local();
        match cell.replace(None) {
            Some(shelf) => {
                let n = shelf.store.len();
                let _ = cell.replace(Some(shelf));
                n
            },
            None => 0,
        }
    }

    /// Attaches `value` to this pool, wrapping it in a handle which will
    /// return the object into the pool when released. The pool's stores are
    /// not touched.
    pub fn attach(&self, value: T) -> (handle: Recycled<'_, T, S>)
        ensures
            handle@ == value,
            handle.pool() == *self,
    {
        Recycled { value, pool: self }
    }

    /// Detaches a value from this pool.
    ///
    /// This is equivalent to `get`, except for that the object will never
    /// be returned to the pool.
    pub fn detached(&self) -> (object: T)
        ensures
            self.admits(object),
    {
        self.get_raw_value()
    }

    /// Resets `value` and puts it on top of the calling thread's store.
    fn return_value(&self, value: T) {
        let cell = self.local();
        let shelf = match cell.replace(None) {
            Some(shelf) => shelf,
            None => Shelf { owner: self.shared.clone(), store: Store::new() },
        };
        proof {
            use_type_invariant(&shelf);
        }
        let Shelf { owner, store } = shelf;
        let mut store = store;
        let ghost before = store@;
        store.release(value);
        assert forall|i: int| 0 <= i < store@.len() implies owner.admits(#[trigger] store@[i]) by {
            if i < before.len() {
                assert(store@.drop_last()[i] == store@[i]);
            }
        }
        let _ = cell.replace(Some(Shelf { owner, store }));
    }

    /// Takes the top object of the calling thread's store, or constructs
    /// one if the store is empty.
    fn get_raw_value(&self) -> (object: T)
        ensures
            self.admits(object),
    {
        let cell = self.local();
        match cell.replace(None) {
            Some(shelf) => {
                if same_allocation(&shelf.owner, &self.shared) {
                    proof {
                        use_type_invariant(&shelf);
                    }
                    let Shelf { owner, store } = shelf;
                    let mut store = store;
                    let object = store.acquire(&self.shared.settings);
                    let _ = cell.replace(Some(Shelf { owner, store }));
                    object
                } else {
                    // The shelf is another pool's: it stays as it is.
                    let _ = cell.replace(Some(shelf));
                    self.shared.settings.create()
                }
            },
            None => self.shared.settings.create(),
        }
    }

    /// The cell of the calling thread.
    fn local(&self) -> &Cell<Option<Shelf<T, S>>> {
        self.values.get_or(|| init())
    }
}

/// A handle which owns one object of a pool and returns it to the pool
/// when released.
///
/// Objects of this type are obtained using `Pool::get`.
#[verifier::reject_recursive_types(T)]
#[verifier::reject_recursive_types(S)]
pub struct Recycled<'a, T: Recyclable, S: Supplier<T> = ByNew> {
    value: T,
    pool: &'a Pool<T, S>,
}

impl<'a, T: Recyclable, S: Supplier<T>> View for Recycled<'a, T, S> {
    type V = T;

    closed spec fn view(&self) -> T {
        self.value
    }
}

impl<'a, T: Recyclable, S: Supplier<T>> Recycled<'a, T, S> {
    /// The pool that the object goes back to.
    pub closed spec fn pool(&self) -> Pool<T, S> {
        *self.pool
    }

    /// Resets the object and returns it to the pool, on top of the store
    /// of the calling thread. The handle is used up, so no object is
    /// returned twice.
    pub fn release(self) {
        self.pool.return_value(self.value)
    }
}

impl<'a, T: Recyclable, S: Supplier<T>> core::ops::Deref for Recycled<'a, T, S> {
    type Target = T;

    fn deref(&self) -> (r: &T)
        ensures
            *r == self@,
    {
        &self.value
    }
}

impl<'a, T: Recyclable, S: Supplier<T>> core::ops::DerefMut for Recycled<'a, T, S> {
    fn deref_mut(&mut self) -> (r: &mut T)
        ensures
            *r == old(self)@,
            final(self)@ == *final(r),
            final(self).pool() == old(self).pool(),
    {
        &mut self.value
    }
}

impl<'a, T: Recyclable, S: Supplier<T>> AsRef<T> for Recycled<'a, T, S> {
    fn as_ref(&self) -> (r: &T)
        ensures
            *r == self@,
    {
        &self.value
    }
}

impl<'a, T: Recyclable, S: Supplier<T>> AsMut<T> for Recycled<'a, T, S> {
    fn as_mut(&mut self) -> (r: &mut T)
        ensures
            *r == old(self)@,
            final(self)@ == *final(r),
            final(self).pool() == old(self).pool(),
    {
        &mut self.value
    }
}

impl<'a, T: Recyclable + PartialEq, S: Supplier<T>> PartialEq<T> for Recycled<'a, T, S> {
    fn eq(&self, other: &T) -> (r: bool) {
        self.value.eq(other)
    }
}

impl<'a, T: Recyclable + PartialEq, S: Supplier<T>> PartialEqSpecImpl<T> for Recycled<'a, T, S> {
    open spec fn obeys_eq_spec() -> bool {
        T::obeys_eq_spec()
    }

    open spec fn eq_spec(&self, other: &T) -> bool {
        self@.eq_spec(other)
    }
}

impl<'a, T: Recyclable + PartialOrd, S: Supplier<T>> PartialOrd<T> for Recycled<'a, T, S> {
    fn partial_cmp(&self, other: &T) -> (r: Option<Ordering>) {
        self.value.partial_cmp(other)
    }
}

impl<'a, T: Recyclable + PartialOrd, S: Supplier<T>> PartialOrdSpecImpl<T> for Recycled<'a, T, S> {
    open spec fn obeys_partial_cmp_spec() -> bool {
        T::obeys_partial_cmp_spec()
    }

    open spec fn partial_cmp_spec(&self, other: &T) -> Option<Ordering> {
        self@.partial_cmp_spec(other)
    }
}

} // verus!
