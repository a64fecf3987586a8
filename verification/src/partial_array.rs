//! A fixed-capacity buffer that is filled one value at a time.
//!
//! `PartialArray<A, N>` owns at most `N` values of type `A`. Values are
//! appended one at a time with [`PartialArray::push`]; once exactly `N`
//! values have been pushed, [`PartialArray::into_array`] hands all of them
//! to the caller as an `[A; N]`. A buffer that is dropped before that point
//! releases exactly the values pushed so far, in the order they were pushed,
//! because they are owned by the buffer's storage.

use vstd::prelude::*;

verus! {

/// A buffer with room for exactly `N` values of type `A`, of which only a
/// leading prefix is present at any time.
///
/// The buffer starts empty, grows by one value per `push`, and is consumed
/// either by `into_array` (when full) or by being dropped (releasing the
/// prefix pushed so far and nothing else).
pub struct PartialArray<A, const N: usize> {
    storage: Vec<A>,
}

impl<A, const N: usize> View for PartialArray<A, N> {
    type V = Seq<A>;

    /// The sequence of values pushed so far, in push order.
    closed spec fn view(&self) -> Seq<A> {
        self.storage@
    }
}

impl<A, const N: usize> PartialArray<A, N> {
    /// The count of held values never exceeds the capacity.
    pub open spec fn wf(&self) -> bool {
        self@.len() <= N
    }

    /// The buffer holds exactly `N` values.
    pub open spec fn spec_full(&self) -> bool {
        self@.len() == N
    }

    /// Creates an empty buffer.
    pub fn new() -> (buffer: Self)
        ensures
            buffer@ == Seq::<A>::empty(),
            buffer.wf(),
    {
        PartialArray { storage: Vec::new() }
    }

    /// Appends `value` after the values already held.
    ///
    /// Callers must check `full` first: a full buffer admits no push.
    pub fn push(&mut self, value: A)
        requires
            old(self)@.len() < N,
        ensures
            final(self)@ == old(self)@.push(value),
            final(self).wf(),
    {
        self.storage.push(value);
    }

    /// Reports whether the buffer holds exactly `N` values.
    pub fn full(&self) -> (r: bool)
        ensures
            r == self.spec_full(),
    {
        self.storage.len() == N
    }

    /// Consumes a full buffer and returns its `N` values as an array, in
    /// push order.
    ///
    /// Callers must check `full` first: ownership of all `N` values passes
    /// to the returned array, so every slot has to hold one.
    pub fn into_array(self) -> (array: [A; N])
        requires
            self.spec_full(),
        ensures
            array@ == self@,
    {
        vec_into_array(self.storage)
    }
}

/// Relies on std's `<[A; N] as TryFrom<Vec<A>>>::try_from`, which returns the
/// vector's elements as an array exactly when the vector's length is `N`.
#[verifier::external_body]
fn vec_into_array<A, const N: usize>(values: Vec<A>) -> (array: [A; N])
    requires
        values@.len() == N,
    ensures
        array@ == values@,
{
    match <[A; N]>::try_from(values) {
        Ok(array) => array,
        Err(_) => vstd::pervasive::unreached(),
    }
}

} // verus!
