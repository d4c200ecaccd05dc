//! The mathematical model behind the contracts of this crate.
//!
//! An iterator is described by the sequence of items that it still has to yield, in the
//! order in which it will yield them: `remaining()` of [`IteratorSpec`]. Requesting one
//! item removes the first element of that sequence; once the sequence is empty, every
//! further request is answered with `None`.
//!
//! The proof functions of this module state what follows for a drain, which advances an
//! iterator until nothing remains.

use vstd::prelude::*;
use vstd::std_specs::iter::IteratorSpec;

verus! {

/// Whether `iter` is an iterator that can be drained.
///
/// Such an iterator follows the iterator protocol: it yields the items of its
/// `remaining()` sequence in order, then `None`, and `None` again whenever it is asked
/// afterwards. It also names a measure that shrinks with every item it yields, which
/// bounds the number of steps of a loop over it. An iterator without an end is not
/// finite.
pub open spec fn is_finite<I: Iterator>(iter: I) -> bool {
    &&& iter.obeys_prophetic_iter_laws()
    &&& iter.decrease() is Some
}

/// Whether an iterator that had `before` to yield has `after` to yield once exactly `n`
/// items have been requested from it: the first `n` items of `before` are gone, and the
/// others are still to come, in their order.
pub open spec fn advanced_by<T>(before: Seq<T>, after: Seq<T>, n: nat) -> bool {
    &&& n <= before.len()
    &&& after =~= before.skip(n as int)
}

/// Whether an iterator that had `before` to yield has been drained to `after`: every
/// item of `before` has been requested, one request for each, and nothing remains.
pub open spec fn drained<T>(before: Seq<T>, after: Seq<T>) -> bool {
    &&& after.len() == 0
    &&& advanced_by(before, after, before.len())
}

/// An iterator is exhausted after as many requests as it had items, and not before:
/// of the states that `n` requests can lead to, the one with nothing left is the one
/// reached by `before.len()` requests. So a drain, which stops at the first request
/// that finds nothing, requests each item exactly once.
pub proof fn lemma_exhausted_after_exactly_len<T>(before: Seq<T>, after: Seq<T>, n: nat)
    requires
        advanced_by(before, after, n),
    ensures
        after.len() == 0 <==> n == before.len(),
        drained(before, after) <==> n == before.len(),
{
}

/// Draining is idempotent: a second drain finds nothing to request and leaves the
/// iterator as the first drain left it.
pub proof fn lemma_drain_twice<T>(before: Seq<T>, once: Seq<T>, twice: Seq<T>)
    requires
        drained(before, once),
        drained(once, twice),
    ensures
        twice == once,
        advanced_by(once, twice, 0),
        drained(before, twice),
{
}

/// Two drains of iterators that have the same items to yield do the same, whichever way
/// each drain was invoked: they make the same number of requests, the requests are
/// answered with the same items in the same order, and the same is left behind.
pub proof fn lemma_drains_agree<T>(
    before_a: Seq<T>,
    after_a: Seq<T>,
    n_a: nat,
    before_b: Seq<T>,
    after_b: Seq<T>,
    n_b: nat,
)
    requires
        before_a == before_b,
        drained(before_a, after_a),
        advanced_by(before_a, after_a, n_a),
        drained(before_b, after_b),
        advanced_by(before_b, after_b, n_b),
    ensures
        n_a == n_b,
        before_a.take(n_a as int) == before_b.take(n_b as int),
        after_a == after_b,
{
}

} // verus!
