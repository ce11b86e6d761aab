//! The rules of the pool, proved from the contracts of its functions.
//!
//! Most of them speak of one store: the spare objects of one thread. The
//! stores of a pool share nothing, so what holds of each holds of all of
//! them whatever the other threads do. The first two speak of a pool as a
//! whole, and of every thread that uses it.

use crate::builder::{without_supplier_creates_fresh, PoolBuilder, Supplier};
use crate::recyclable::Recyclable;
use crate::store::{acquires, releases, stocks};
use crate::Pool;
use vstd::prelude::*;

verus! {

/// A pool that was built without a supplier and without items hands out
/// fresh objects only, to whichever thread, whatever was done to its
/// objects before they were released: `v` stands for any object that
/// `Pool::get` or `Pool::detached` may return.
pub proof fn plain_pool_hands_out_fresh<T: Recyclable>(pool: Pool<T>, v: T)
    requires
        pool.given() == Seq::<T>::empty(),
        pool.admits(v),
    ensures
        v.fresh(),
{
    without_supplier_creates_fresh(pool.settings(), v);
}

/// What a pool hands out that is not fresh was constructed as its settings
/// say or given to it when it was built: `v` stands for any object that
/// `Pool::get` or `Pool::detached` may return.
pub proof fn not_fresh_is_constructed_or_given<T: Recyclable, S: Supplier<T>>(pool: Pool<T, S>, v: T)
    requires
        pool.admits(v),
        !v.fresh(),
    ensures
        pool.settings().creates(v) || pool.given().contains(v),
{
}

/// The store that a pool is built with, if it is built without items,
/// holds exactly as many objects as the starting size says, each of them
/// newly constructed.
pub proof fn starts_at_starting_size<T: Recyclable, S: Supplier<T>>(
    settings: PoolBuilder<T, S>,
    store: Seq<T>,
)
    requires
        stocks(settings, Seq::<T>::empty(), store),
    ensures
        store.len() == settings.starting_size(),
        forall|i: int| 0 <= i < store.len() ==> settings.creates(#[trigger] store[i]),
{
}

/// The store that a pool is built with holds the items that it was given,
/// in their order, the last on top, unless the starting size asks for
/// more: then what is missing comes on top of them, newly constructed.
pub proof fn starts_with_items<T: Recyclable, S: Supplier<T>>(
    settings: PoolBuilder<T, S>,
    items: Seq<T>,
    store: Seq<T>,
)
    requires
        stocks(settings, items, store),
    ensures
        items.len() >= settings.starting_size() ==> store == items,
        items.len() < settings.starting_size() ==> {
            &&& store.len() == settings.starting_size()
            &&& forall|i: int| 0 <= i < items.len() ==> store[i] == items[i]
            &&& forall|i: int|
                items.len() <= i < settings.starting_size() ==> settings.creates(
                    #[trigger] store[i],
                )
        },
{
}

/// Acquiring from a store that holds an object and releasing what was
/// acquired leaves as many objects as there were.
///
/// It does not hold of an empty store: there the acquire constructs an
/// object, and the release adds it to the store.
pub proof fn acquire_release_balance<T: Recyclable, S: Supplier<T>>(
    settings: PoolBuilder<T, S>,
    before: Seq<T>,
    got: T,
    between: Seq<T>,
    after: Seq<T>,
)
    requires
        before.len() > 0,
        acquires(settings, before, got, between),
        releases(between, after),
    ensures
        after.len() == before.len(),
        after.drop_last() == before.drop_last(),
{
}

/// Acquiring from an empty store and releasing what was acquired leaves
/// one object, the one that was constructed for the acquire, reset.
pub proof fn empty_store_grows<T: Recyclable, S: Supplier<T>>(
    settings: PoolBuilder<T, S>,
    before: Seq<T>,
    got: T,
    between: Seq<T>,
    after: Seq<T>,
)
    requires
        before.len() == 0,
        acquires(settings, before, got, between),
        releases(between, after),
    ensures
        settings.creates(got),
        after.len() == 1,
        after[0].fresh(),
{
}

/// What is released is reset before it is used again: the acquire that
/// follows a release hands out a fresh object, and leaves the store as it
/// was before the release.
pub proof fn reset_before_reuse<T: Recyclable, S: Supplier<T>>(
    settings: PoolBuilder<T, S>,
    before: Seq<T>,
    between: Seq<T>,
    got: T,
    after: Seq<T>,
)
    requires
        releases(before, between),
        acquires(settings, between, got, after),
    ensures
        got.fresh(),
        got == between.last(),
        after == before,
{
}

/// Objects leave a store in the reverse of the order in which they came:
/// what two releases put there, two acquires hand out last first.
pub proof fn last_in_first_out<T: Recyclable, S: Supplier<T>>(
    settings: PoolBuilder<T, S>,
    s0: Seq<T>,
    s1: Seq<T>,
    s2: Seq<T>,
    first: T,
    s3: Seq<T>,
    second: T,
    s4: Seq<T>,
)
    requires
        releases(s0, s1),
        releases(s1, s2),
        acquires(settings, s2, first, s3),
        acquires(settings, s3, second, s4),
    ensures
        first == s2.last(),
        second == s1.last(),
        s3 == s1,
        s4 == s0,
{
}

/// Taking an object out of a store that holds one leaves one object less:
/// the store is what lay below the object, and the object is no part of
/// it.
///
/// An object that is detached is never released, so this is the last that
/// the store sees of it.
pub proof fn detach_shrinks<T: Recyclable, S: Supplier<T>>(
    settings: PoolBuilder<T, S>,
    before: Seq<T>,
    got: T,
    after: Seq<T>,
)
    requires
        before.len() > 0,
        acquires(settings, before, got, after),
    ensures
        after.len() == before.len() - 1,
        before == after.push(got),
{
}

/// Releasing an object adds one to the store, whatever the object was
/// before: one acquired from this pool, or one attached to it.
pub proof fn release_grows<T: Recyclable>(before: Seq<T>, after: Seq<T>)
    requires
        releases(before, after),
    ensures
        after.len() == before.len() + 1,
        forall|i: int| 0 <= i < before.len() ==> after[i] == before[i],
{
}

/// `after` is what an acquire and the release of what it acquired make of
/// `before`.
pub open spec fn cycles<T: Recyclable, S: Supplier<T>>(
    settings: PoolBuilder<T, S>,
    before: Seq<T>,
    after: Seq<T>,
) -> bool {
    exists|got: T, between: Seq<T>|
        #[trigger] acquires(settings, before, got, between) && releases(between, after)
}

/// Step `i` of `trace` is an acquire followed by a release.
pub open spec fn cycle_at<T: Recyclable, S: Supplier<T>>(
    settings: PoolBuilder<T, S>,
    trace: Seq<Seq<T>>,
    i: int,
) -> bool {
    cycles(settings, trace[i], trace[i + 1])
}

/// However often a thread acquires an object and releases it again, its
/// store keeps its size, if it held an object to begin with.
///
/// `trace` lists the store before the first acquire and after each
/// release.
pub proof fn cycles_keep_size<T: Recyclable, S: Supplier<T>>(
    settings: PoolBuilder<T, S>,
    trace: Seq<Seq<T>>,
)
    requires
        trace.len() > 0,
        trace[0].len() > 0,
        forall|i: int| 0 <= i < trace.len() - 1 ==> #[trigger] cycle_at(settings, trace, i),
    ensures
        forall|i: int| 0 <= i < trace.len() ==> (#[trigger] trace[i]).len() == trace[0].len(),
    decreases trace.len(),
{
    if trace.len() > 1 {
        let shorter = trace.drop_last();
        assert forall|i: int| 0 <= i < shorter.len() - 1 implies #[trigger] cycle_at(
            settings,
            shorter,
            i,
        ) by {
            assert(cycle_at(settings, trace, i));
        }
        cycles_keep_size(settings, shorter);
        let k = trace.len() - 2;
        assert(cycle_at(settings, trace, k));
        assert(shorter[k].len() == trace[0].len());
        let (got, between) = choose|got: T, between: Seq<T>|
            #[trigger] acquires(settings, trace[k], got, between) && releases(
                between,
                trace[k + 1],
            );
        acquire_release_balance(settings, trace[k], got, between, trace[k + 1]);
        assert forall|i: int| 0 <= i < trace.len() implies (#[trigger] trace[i]).len()
            == trace[0].len() by {
            if i < trace.len() - 1 {
                assert(shorter[i] == trace[i]);
            }
        }
    }
}

} // verus!
