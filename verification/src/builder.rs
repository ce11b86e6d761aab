//! Pool settings: how many objects to start with, and how to make one.

use crate::recyclable::Recyclable;
use vstd::prelude::*;

verus! {

/// A source of new objects for a pool.
///
/// It stands in for construction only: a pool never asks its supplier to
/// reset a value.
pub trait Supplier<T>: Send + Sync {
    /// Whether `supply` may be called.
    spec fn callable(&self) -> bool;

    /// Whether `v` is a value that `supply` may return.
    spec fn supplies(&self, v: T) -> bool;

    /// Makes one new object.
    fn supply(&self) -> (r: T)
        requires
            self.callable(),
        ensures
            self.supplies(r),
    ;
}

/// The supplier of a pool that was given none: it constructs by
/// `Recyclable::new`.
pub struct ByNew;

impl<T: Recyclable> Supplier<T> for ByNew {
    open spec fn callable(&self) -> bool {
        true
    }

    open spec fn supplies(&self, v: T) -> bool {
        v.fresh()
    }

    fn supply(&self) -> (r: T) {
        T::new()
    }
}

/// The supplier that a closure makes.
pub struct FnSupplier<F> {
    f: F,
}

impl<T, F: Fn() -> T + Send + Sync> Supplier<T> for FnSupplier<F> {
    closed spec fn callable(&self) -> bool {
        call_requires(self.f, ())
    }

    closed spec fn supplies(&self, v: T) -> bool {
        call_ensures(self.f, (), v)
    }

    fn supply(&self) -> (r: T) {
        (self.f)()
    }
}

/// A pool builder, used to configure various pool settings.
///
/// `S` is the supplier: `ByNew` until `with_supplier` sets another.
pub struct PoolBuilder<T: Recyclable, S: Supplier<T> = ByNew> {
    starting_size: usize,
    supplier: S,
    // Names `T`, of which the settings hold no value. The marker is of a
    // ghost type so that the settings can be shared between threads
    // whatever `T` is.
    made: core::marker::PhantomData<Ghost<T>>,
}

/// Creates a new `PoolBuilder`, used to initialize a `Pool`.
///
/// This function will use a starting size of zero and no supplier
/// function.
pub fn builder<T: Recyclable>() -> (r: PoolBuilder<T>)
    ensures
        r.starting_size() == 0,
        forall|v: T| #![trigger r.creates(v)] #![trigger v.fresh()] r.creates(v) == v.fresh(),
{
    PoolBuilder { starting_size: 0, supplier: ByNew, made: core::marker::PhantomData }
}

/// Settings without a supplier construct fresh objects, and nothing else.
pub proof fn without_supplier_creates_fresh<T: Recyclable>(settings: PoolBuilder<T>, v: T)
    ensures
        settings.creates(v) == v.fresh(),
{
}

impl<T: Recyclable> Default for PoolBuilder<T> {
    /// The settings that `builder` gives.
    fn default() -> (r: Self)
        ensures
            r.starting_size() == 0,
            forall|v: T| #![trigger r.creates(v)] #![trigger v.fresh()] r.creates(v) == v.fresh(),
    {
        builder()
    }
}

impl<T: Recyclable, S: Supplier<T>> PoolBuilder<T, S> {
    /// The supplier can always be called.
    #[verifier::type_invariant]
    spec fn supplier_callable(&self) -> bool {
        self.supplier.callable()
    }

    /// The number of objects that a pool built from these settings starts
    /// with, unless it is given more.
    pub closed spec fn spec_starting_size(&self) -> usize {
        self.starting_size
    }

    /// Whether `v` is a value that these settings may construct: one that
    /// the supplier may return or, without a supplier, a fresh one.
    pub closed spec fn creates(&self, v: T) -> bool {
        self.supplier.supplies(v)
    }

    /// The number of objects that a pool built from these settings starts
    /// with, unless it is given more.
    #[verifier::when_used_as_spec(spec_starting_size)]
    pub fn starting_size(&self) -> (n: usize)
        ensures
            n == self.starting_size(),
    {
        self.starting_size
    }

    /// See `Pool::with_size`.
    pub fn with_starting_size(self, starting_size: usize) -> (r: Self)
        ensures
            r.starting_size() == starting_size,
            forall|v: T|
                #![trigger r.creates(v)]
                #![trigger self.creates(v)]
                r.creates(v) == self.creates(v),
    {
        proof {
            use_type_invariant(&self);
        }
        PoolBuilder { starting_size, supplier: self.supplier, made: core::marker::PhantomData }
    }

    /// Uses the given closure for initializing new objects in the pool.
    pub fn with_supplier<F>(self, supplier: F) -> (r: PoolBuilder<T, FnSupplier<F>>) where
        F: Fn() -> T + Send + Sync + 'static,

        requires
            call_requires(supplier, ()),
        ensures
            r.starting_size() == self.starting_size(),
            forall|v: T|
                #![trigger r.creates(v)]
                #![trigger call_ensures(supplier, (), v)]
                r.creates(v) == call_ensures(supplier, (), v),
    {
        PoolBuilder {
            starting_size: self.starting_size,
            supplier: FnSupplier { f: supplier },
            made: core::marker::PhantomData,
        }
    }

    /// Constructs one object: by the supplier if one was set, else by
    /// `Recyclable::new`.
    pub fn create(&self) -> (r: T)
        ensures
            self.creates(r),
    {
        proof {
            use_type_invariant(self);
        }
        self.supplier.supply()
    }
}

} // verus!
