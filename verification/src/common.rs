//! Joining the outputs of two endpoints into one flat tuple.

use std::sync::Arc;
use vstd::prelude::*;

verus! {

/// `Arc::clone`: another pointer to the value that `a` points to.
#[verifier::external_body]
pub(crate) fn share<T>(a: &Arc<T>) -> (r: Arc<T>)
    ensures
        r == *a,
{
    Arc::clone(a)
}

/// A tuple that another tuple can be put behind. The result holds the components of
/// `self`, in their order, and then those of `other`, in theirs: it is never a pair of tuples.
pub trait Combine<T>: Sized {
    type Out;

    spec fn spec_combine(self, other: T) -> Self::Out;

    /// The components of `self` followed by those of `other`.
    fn combine(self, other: T) -> (r: Self::Out)
        ensures
            r == self.spec_combine(other),
    ;
}

impl Combine<()> for () {
    type Out = ();

    open spec fn spec_combine(self, other: ()) -> () {
        ()
    }

    fn combine(self, other: ()) -> (r: ()) {
        ()
    }
}

impl<A> Combine<(A,)> for () {
    type Out = (A,);

    open spec fn spec_combine(self, other: (A,)) -> (A,) {
        (other.0,)
    }

    fn combine(self, other: (A,)) -> (r: (A,)) {
        (other.0,)
    }
}

impl<A, B> Combine<(A, B)> for () {
    type Out = (A, B);

    open spec fn spec_combine(self, other: (A, B)) -> (A, B) {
        (other.0, other.1)
    }

    fn combine(self, other: (A, B)) -> (r: (A, B)) {
        (other.0, other.1)
    }
}

impl<A, B, C> Combine<(A, B, C)> for () {
    type Out = (A, B, C);

    open spec fn spec_combine(self, other: (A, B, C)) -> (A, B, C) {
        (other.0, other.1, other.2)
    }

    fn combine(self, other: (A, B, C)) -> (r: (A, B, C)) {
        (other.0, other.1, other.2)
    }
}

impl<A> Combine<()> for (A,) {
    type Out = (A,);

    open spec fn spec_combine(self, other: ()) -> (A,) {
        (self.0,)
    }

    fn combine(self, other: ()) -> (r: (A,)) {
        (self.0,)
    }
}

impl<A, B> Combine<(B,)> for (A,) {
    type Out = (A, B);

    open spec fn spec_combine(self, other: (B,)) -> (A, B) {
        (self.0, other.0)
    }

    fn combine(self, other: (B,)) -> (r: (A, B)) {
        (self.0, other.0)
    }
}

impl<A, B, C> Combine<(B, C)> for (A,) {
    type Out = (A, B, C);

    open spec fn spec_combine(self, other: (B, C)) -> (A, B, C) {
        (self.0, other.0, other.1)
    }

    fn combine(self, other: (B, C)) -> (r: (A, B, C)) {
        (self.0, other.0, other.1)
    }
}

impl<A, B, C, D> Combine<(B, C, D)> for (A,) {
    type Out = (A, B, C, D);

    open spec fn spec_combine(self, other: (B, C, D)) -> (A, B, C, D) {
        (self.0, other.0, other.1, other.2)
    }

    fn combine(self, other: (B, C, D)) -> (r: (A, B, C, D)) {
        (self.0, other.0, other.1, other.2)
    }
}

impl<A, B> Combine<()> for (A, B) {
    type Out = (A, B);

    open spec fn spec_combine(self, other: ()) -> (A, B) {
        (self.0, self.1)
    }

    fn combine(self, other: ()) -> (r: (A, B)) {
        (self.0, self.1)
    }
}

impl<A, B, C> Combine<(C,)> for (A, B) {
    type Out = (A, B, C);

    open spec fn spec_combine(self, other: (C,)) -> (A, B, C) {
        (self.0, self.1, other.0)
    }

    fn combine(self, other: (C,)) -> (r: (A, B, C)) {
        (self.0, self.1, other.0)
    }
}

impl<A, B, C, D> Combine<(C, D)> for (A, B) {
    type Out = (A, B, C, D);

    open spec fn spec_combine(self, other: (C, D)) -> (A, B, C, D) {
        (self.0, self.1, other.0, other.1)
    }

    fn combine(self, other: (C, D)) -> (r: (A, B, C, D)) {
        (self.0, self.1, other.0, other.1)
    }
}

impl<A, B, C> Combine<()> for (A, B, C) {
    type Out = (A, B, C);

    open spec fn spec_combine(self, other: ()) -> (A, B, C) {
        (self.0, self.1, self.2)
    }

    fn combine(self, other: ()) -> (r: (A, B, C)) {
        (self.0, self.1, self.2)
    }
}

impl<A, B, C, D> Combine<(D,)> for (A, B, C) {
    type Out = (A, B, C, D);

    open spec fn spec_combine(self, other: (D,)) -> (A, B, C, D) {
        (self.0, self.1, self.2, other.0)
    }

    fn combine(self, other: (D,)) -> (r: (A, B, C, D)) {
        (self.0, self.1, self.2, other.0)
    }
}

} // verus!
