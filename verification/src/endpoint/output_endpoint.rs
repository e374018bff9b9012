//! Endpoints whose output can be sent as a response.

use vstd::prelude::*;
use crate::context::ApplyContext;
use crate::endpoint::Endpoint;
use crate::output::Output;

verus! {

/// Keeps `OutputEndpoint` from being implemented elsewhere.
pub trait Sealed {

}

impl<E> Sealed for E where E: Endpoint, E::Output: Output {

}

/// An endpoint whose output can be sent as a response.
pub trait OutputEndpoint: Sealed + Endpoint {
    /// Tries the endpoint, as `apply` does.
    fn apply_output(&self, cx: &mut ApplyContext) -> (r: Option<Self::Task>)
        requires
            self.wf(),
        ensures
            r is Some <==> self.matches(&old(cx).request(), old(cx).pos()),
            *final(cx) == old(cx).at(self.position_after(&old(cx).request(), old(cx).pos())),
            r matches Some(task) ==> self.produces(&old(cx).request(), old(cx).pos(), &task),
    {
        self.apply(cx)
    }
}

impl<E> OutputEndpoint for E where E: Endpoint, E::Output: Output {

}

} // verus!
