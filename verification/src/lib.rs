//! Building a fixed-size array from a sequence whose length is not known in
//! advance.
//!
//! The core is [`partial_array::PartialArray`], a fixed-capacity buffer that
//! accepts one value at a time and converts into an `[A; N]` once exactly `N`
//! values have been pushed. On top of it, [`TryFromIterator`] turns a sequence
//! of values into an `[A; N]`, reporting a [`NonMatchingLenError`] when the
//! sequence holds fewer or more than `N` values.

use vstd::prelude::*;

pub mod partial_array;

verus! {

use crate::partial_array::PartialArray;

/// Reported when the number of supplied values differs from the number the
/// target type needs. It does not say in which direction they differ.
#[derive(Copy, Clone, Debug)]
pub struct NonMatchingLenError;

/// Conversion of a sequence of values of type `A` into `Self`, which fails
/// when the sequence does not fit.
pub trait TryFromIterator<A>: Sized {
    type Error;

    /// Whether a sequence of this shape converts successfully.
    spec fn spec_accepts(s: Seq<A>) -> bool;

    /// Whether `self` is the conversion of the sequence `s`.
    spec fn spec_models(&self, s: Seq<A>) -> bool;

    /// Converts the values into a `Self`, succeeding exactly on the
    /// sequences that `Self` accepts.
    fn try_from_iter(values: Vec<A>) -> (r: Result<Self, Self::Error>)
        ensures
            r is Ok <==> Self::spec_accepts(values@),
            r matches Ok(out) ==> out.spec_models(values@),
    ;
}

impl<A, const N: usize> TryFromIterator<A> for [A; N] {
    type Error = NonMatchingLenError;

    /// An array of `N` values accepts exactly the sequences of length `N`.
    open spec fn spec_accepts(s: Seq<A>) -> bool {
        s.len() == N
    }

    /// The array holds exactly the values of `s`, in order.
    open spec fn spec_models(&self, s: Seq<A>) -> bool {
        self@ == s
    }

    /// Drives the values one at a time into a fresh buffer of capacity `N`.
    /// A value beyond the `N`th is never pushed, and a buffer left behind on
    /// the error paths releases exactly the values pushed into it.
    fn try_from_iter(values: Vec<A>) -> (r: Result<Self, NonMatchingLenError>) {
        let mut remaining = values;
        let mut partial = PartialArray::<A, N>::new();
        proof {
            assert(values@ =~= partial@ + remaining@);
        }
        while remaining.len() > 0
            invariant
                partial.wf(),
                values@ == partial@ + remaining@,
            decreases remaining@.len(),
        {
            if partial.full() {
                return Err(NonMatchingLenError);
            }
            let value = remaining.remove(0);
            partial.push(value);
            proof {
                assert(values@ =~= partial@ + remaining@);
            }
        }
        proof {
            assert(values@ =~= partial@);
        }
        if !partial.full() {
            return Err(NonMatchingLenError);
        }
        Ok(partial.into_array())
    }
}

/// Collecting a sequence of values into a type that converts from it, the
/// counterpart of [`TryFromIterator`] on the side of the sequence.
pub trait TryCollect<A>: View<V = Seq<A>> + Sized {
    /// Converts the sequence into a `B`, succeeding exactly when `B` accepts
    /// a sequence of this shape.
    fn try_collect<B: TryFromIterator<A>>(self) -> (r: Result<B, B::Error>)
        ensures
            r is Ok <==> B::spec_accepts(self@),
            r matches Ok(out) ==> out.spec_models(self@),
    ;
}

impl<A> TryCollect<A> for Vec<A> {
    fn try_collect<B: TryFromIterator<A>>(self) -> (r: Result<B, B::Error>) {
        B::try_from_iter(self)
    }
}

/// A freshly created buffer of positive capacity is not yet full, so a first
/// push is admitted.
pub proof fn lemma_fresh_buffer_not_full<A, const N: usize>(buffer: PartialArray<A, N>)
    requires
        buffer@ == Seq::<A>::empty(),
        N > 0,
    ensures
        !buffer.spec_full(),
        buffer@.len() < N,
{
}

/// A buffer holding exactly as many values as its capacity is full, so it
/// meets the precondition of `into_array`.
pub proof fn lemma_filled_buffer_is_full<A, const N: usize>(buffer: PartialArray<A, N>)
    requires
        buffer@.len() == N,
    ensures
        buffer.spec_full(),
{
}

} // verus!
