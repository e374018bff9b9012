//! Endpoints whose tasks may be handed to another thread.

use vstd::prelude::*;
use crate::context::ApplyContext;
use crate::endpoint::Endpoint;
use crate::input::Input;

verus! {

/// Keeps `IsSendEndpoint` from being implemented elsewhere.
pub trait Sealed {

}

impl<E> Sealed for E where E: Endpoint, E::Task: Send {

}

/// An endpoint whose task can be handed to another thread.
pub trait IsSendEndpoint: Sealed + Endpoint {

}

impl<E> IsSendEndpoint for E where E: Endpoint, E::Task: Send {

}

/// An endpoint whose task can be handed to another thread, under a name that hides its
/// type.
#[derive(Debug)]
pub struct SendEndpoint<E> {
    pub endpoint: E,
}

impl<E: Clone> Clone for SendEndpoint<E> {
    fn clone(&self) -> (r: Self) {
        SendEndpoint { endpoint: self.endpoint.clone() }
    }
}

impl<E: IsSendEndpoint> SendEndpoint<E> {
    /// The endpoint `endpoint` under the name `SendEndpoint`.
    pub fn new(endpoint: E) -> (r: SendEndpoint<E>)
        ensures
            r.endpoint == endpoint,
    {
        SendEndpoint { endpoint }
    }
}

impl<E: IsSendEndpoint> From<E> for SendEndpoint<E> {
    fn from(endpoint: E) -> (r: SendEndpoint<E>) {
        SendEndpoint { endpoint }
    }
}

impl<E: IsSendEndpoint> vstd::std_specs::convert::FromSpecImpl<E> for SendEndpoint<E> {
    open spec fn obeys_from_spec() -> bool {
        true
    }

    open spec fn from_spec(endpoint: E) -> SendEndpoint<E> {
        SendEndpoint { endpoint }
    }
}

impl<E: IsSendEndpoint> Endpoint for SendEndpoint<E> {
    type Output = E::Output;

    type Task = E::Task;

    open spec fn wf(&self) -> bool {
        self.endpoint.wf()
    }

    open spec fn takes_body(&self) -> bool {
        self.endpoint.takes_body()
    }

    open spec fn matches(&self, input: &Input, pos: nat) -> bool {
        self.endpoint.matches(input, pos)
    }

    open spec fn position_after(&self, input: &Input, pos: nat) -> nat {
        self.endpoint.position_after(input, pos)
    }

    open spec fn produces(&self, input: &Input, pos: nat, task: &Self::Task) -> bool {
        self.endpoint.produces(input, pos, task)
    }

    fn apply(&self, cx: &mut ApplyContext) -> (r: Option<Self::Task>) {
        self.endpoint.apply(cx)
    }
}

} // verus!
