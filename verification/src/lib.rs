//! Running an iterator to its end.
//!
//! [`consume`] takes an iterator and requests its items one at a time, discarding each,
//! until the iterator reports that none is left. [`consume_by_ref`] does the same through
//! a mutable reference, so that the caller keeps the iterator and learns that it is
//! exhausted. [`ConsumeIterator`] offers both as methods of every iterator.
//!
//! The contracts speak of the sequence of items that an iterator still has to yield; the
//! module [`model`] defines the terms and proves what follows from them.

use crate::model::{drained, is_finite};
use vstd::prelude::*;
use vstd::std_specs::iter::IteratorSpec;

pub mod model;

verus! {

/// Drains the iterator behind `iter`: requests its items one at a time, in the order in
/// which the iterator yields them, and discards each, until the iterator answers that
/// none is left.
///
/// Afterwards the iterator is exhausted: it has nothing left to yield, so every further
/// request is answered with `None`. It got there by one request for each item that it
/// had. The call has seen the iterator answer `None`, which is what `will_return_none`
/// foretells of the iterator as it was handed in. The iterator is still finite, so it
/// may be drained again, which requests nothing.
#[inline]
pub fn consume_by_ref<I: Iterator>(iter: &mut I)
    requires
        is_finite(*old(iter)),
    ensures
        is_finite(*final(iter)),
        (*old(iter)).will_return_none(),
        (*final(iter)).will_return_none(),
        drained((*old(iter)).remaining(), (*final(iter)).remaining()),
{
    loop
        invariant
            is_finite(*iter),
            (*iter).will_return_none() == (*old(iter)).will_return_none(),
        ensures
            (*old(iter)).will_return_none(),
            (*iter).will_return_none(),
            drained((*old(iter)).remaining(), (*iter).remaining()),
        decreases (*iter).decrease()->0,
    {
        match iter.next() {
            Some(_) => {},
            None => break,
        }
    }
}

/// Consumes an iterator: drains it as [`consume_by_ref`] does, and drops it.
///
/// The call returns once the iterator has answered `None`: it has run the iterator to
/// its end, which is what `will_return_none` foretells of `iter`. The iterator is taken
/// by value, so its state after the last request is not left to the caller. To keep the
/// iterator and learn that nothing remains in it, hand it to [`consume_by_ref`].
#[inline]
pub fn consume<I: Iterator>(iter: I)
    requires
        is_finite(iter),
    ensures
        iter.will_return_none(),
{
    let mut iter = iter;
    consume_by_ref(&mut iter);
}

/// Convenience trait that offers [`consume`] and [`consume_by_ref`] as methods.
/// It is implemented for every [`Iterator`].
pub trait ConsumeIterator: Iterator {
    /// Consumes the iterator, as the function [`consume`] does, with the same outcome.
    #[inline]
    fn consume(self) where Self: Sized
        requires
            is_finite(self),
        ensures
            self.will_return_none(),
    {
        crate::consume(self);
    }

    /// Drains the iterator in place, as the function [`consume_by_ref`] does, with the
    /// same outcome.
    #[inline]
    fn consume_by_ref(&mut self) where Self: Sized
        requires
            is_finite(*old(self)),
        ensures
            is_finite(*final(self)),
            (*old(self)).will_return_none(),
            (*final(self)).will_return_none(),
            drained((*old(self)).remaining(), (*final(self)).remaining()),
    {
        crate::consume_by_ref(self);
    }
}

impl<T: Iterator> ConsumeIterator for T {}

} // verus!
