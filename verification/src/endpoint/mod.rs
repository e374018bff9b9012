//! Endpoints: the units that match a request and hand out the task that serves it.

pub mod all;
pub mod and;
pub mod and_then;
pub mod body;
pub mod map;
pub mod method;
pub mod or;
pub mod or_else;
pub mod output_endpoint;
pub mod path;
pub mod path_seq;
pub mod query;
pub mod send_endpoint;
pub mod syntax;
pub mod unit;
pub mod with;

use std::rc::Rc;
use std::sync::Arc;
use vstd::prelude::*;
use crate::common::Combine;
use crate::context::ApplyContext;
use crate::endpoint::and::And;
use crate::endpoint::and_then::AndThen;
use crate::endpoint::map::{MapErr, Mapped};
use crate::endpoint::or::{Or, OrStrict};
use crate::endpoint::or_else::OrElse;
use crate::error::Error;
use crate::input::Input;
use crate::task::Task;

verus! {

/// A unit that looks at a request and either declines it or hands out a task for it.
///
/// Matching is a function of the request and of the cursor: `matches` says whether the
/// endpoint takes the request, `position_after` where it leaves the cursor, whether it takes
/// the request or declines it, and `produces` what task it hands out. An endpoint that
/// declines has not failed: it leaves the request to another.
pub trait Endpoint {
    type Output;

    type Task: Task<Output = Self::Output>;

    /// Whether the endpoint was put together so that it can be applied.
    spec fn wf(&self) -> bool;

    /// Whether a task of this endpoint may take the handle of the request's body.
    spec fn takes_body(&self) -> bool;

    /// Whether the endpoint takes the request `input` when `pos` segments are consumed.
    spec fn matches(&self, input: &Input, pos: nat) -> bool;

    /// The number of segments that are consumed after the attempt.
    spec fn position_after(&self, input: &Input, pos: nat) -> nat;

    /// Whether `task` is what the endpoint hands out for the request.
    spec fn produces(&self, input: &Input, pos: nat, task: &Self::Task) -> bool;

    /// Tries the endpoint on the request in `cx`, from the cursor's position on.
    fn apply(&self, cx: &mut ApplyContext) -> (r: Option<Self::Task>)
        requires
            self.wf(),
        ensures
            r is Some <==> self.matches(&old(cx).request(), old(cx).pos()),
            *final(cx) == old(cx).at(self.position_after(&old(cx).request(), old(cx).pos())),
            final(cx).request() == old(cx).request(),
            final(cx).pos() == self.position_after(&old(cx).request(), old(cx).pos()),
            old(cx).pos() <= final(cx).pos() <= old(cx).segments().len(),
            r matches Some(task) ==> {
                &&& task.live()
                &&& task.needs_body() ==> self.takes_body()
                &&& self.produces(&old(cx).request(), old(cx).pos(), &task)
            },
    ;
}

impl<'a, E: Endpoint> Endpoint for &'a E {
    type Output = E::Output;

    type Task = E::Task;

    open spec fn wf(&self) -> bool {
        (**self).wf()
    }

    open spec fn takes_body(&self) -> bool {
        (**self).takes_body()
    }

    open spec fn matches(&self, input: &Input, pos: nat) -> bool {
        (**self).matches(input, pos)
    }

    open spec fn position_after(&self, input: &Input, pos: nat) -> nat {
        (**self).position_after(input, pos)
    }

    open spec fn produces(&self, input: &Input, pos: nat, task: &Self::Task) -> bool {
        (**self).produces(input, pos, task)
    }

    fn apply(&self, cx: &mut ApplyContext) -> (r: Option<Self::Task>) {
        (**self).apply(cx)
    }
}

impl<E: Endpoint> Endpoint for Box<E> {
    type Output = E::Output;

    type Task = E::Task;

    open spec fn wf(&self) -> bool {
        (**self).wf()
    }

    open spec fn takes_body(&self) -> bool {
        (**self).takes_body()
    }

    open spec fn matches(&self, input: &Input, pos: nat) -> bool {
        (**self).matches(input, pos)
    }

    open spec fn position_after(&self, input: &Input, pos: nat) -> nat {
        (**self).position_after(input, pos)
    }

    open spec fn produces(&self, input: &Input, pos: nat, task: &Self::Task) -> bool {
        (**self).produces(input, pos, task)
    }

    fn apply(&self, cx: &mut ApplyContext) -> (r: Option<Self::Task>) {
        (**self).apply(cx)
    }
}

impl<E: Endpoint> Endpoint for Rc<E> {
    type Output = E::Output;

    type Task = E::Task;

    open spec fn wf(&self) -> bool {
        (**self).wf()
    }

    open spec fn takes_body(&self) -> bool {
        (**self).takes_body()
    }

    open spec fn matches(&self, input: &Input, pos: nat) -> bool {
        (**self).matches(input, pos)
    }

    open spec fn position_after(&self, input: &Input, pos: nat) -> nat {
        (**self).position_after(input, pos)
    }

    open spec fn produces(&self, input: &Input, pos: nat, task: &Self::Task) -> bool {
        (**self).produces(input, pos, task)
    }

    fn apply(&self, cx: &mut ApplyContext) -> (r: Option<Self::Task>) {
        (**self).apply(cx)
    }
}

impl<E: Endpoint> Endpoint for Arc<E> {
    type Output = E::Output;

    type Task = E::Task;

    open spec fn wf(&self) -> bool {
        (**self).wf()
    }

    open spec fn takes_body(&self) -> bool {
        (**self).takes_body()
    }

    open spec fn matches(&self, input: &Input, pos: nat) -> bool {
        (**self).matches(input, pos)
    }

    open spec fn position_after(&self, input: &Input, pos: nat) -> nat {
        (**self).position_after(input, pos)
    }

    open spec fn produces(&self, input: &Input, pos: nat, task: &Self::Task) -> bool {
        (**self).produces(input, pos, task)
    }

    fn apply(&self, cx: &mut ApplyContext) -> (r: Option<Self::Task>) {
        (**self).apply(cx)
    }
}

/// A value that stands for an endpoint, such as the text of a pattern of segments.
pub trait IntoEndpoint: Sized {
    type Output;

    type Endpoint: Endpoint<Output = Self::Output>;

    /// Whether the value stands for an endpoint.
    spec fn convertible(&self) -> bool;

    /// Whether `endpoint` is the endpoint that the value stands for.
    spec fn converts_to(&self, endpoint: &Self::Endpoint) -> bool;

    /// The endpoint that the value stands for.
    fn into_endpoint(self) -> (r: Self::Endpoint)
        requires
            self.convertible(),
        ensures
            self.converts_to(&r),
    ;
}

impl<E: Endpoint> IntoEndpoint for E {
    type Output = E::Output;

    type Endpoint = E;

    open spec fn convertible(&self) -> bool {
        true
    }

    open spec fn converts_to(&self, endpoint: &E) -> bool {
        *endpoint == *self
    }

    fn into_endpoint(self) -> (r: E) {
        self
    }
}

/// The ways to put two endpoints together.
pub trait IntoEndpointExt: IntoEndpoint {
    /// The endpoint that takes a request when `self` takes it and `other` takes what is
    /// left of the path. Its output is the output of `self` followed by that of `other`.
    fn and<E>(self, other: E) -> (r: And<Self::Endpoint, E::Endpoint>) where
        E: IntoEndpoint,
        Self::Output: Combine<E::Output>,

        requires
            self.convertible(),
            other.convertible(),
        ensures
            self.converts_to(&r.e1),
            other.converts_to(&r.e2),
    {
        And { e1: self.into_endpoint(), e2: other.into_endpoint() }
    }

    /// The endpoint that takes a request when `self` or `other` takes it. Its output
    /// says which of the two it comes from.
    fn or<E>(self, other: E) -> (r: Or<Self::Endpoint, E::Endpoint>) where E: IntoEndpoint
        requires
            self.convertible(),
            other.convertible(),
        ensures
            self.converts_to(&r.e1),
            other.converts_to(&r.e2),
    {
        Or { e1: self.into_endpoint(), e2: other.into_endpoint() }
    }

    /// The endpoint that takes a request when `self` or `other` takes it, where both have
    /// the same output.
    fn or_strict<E>(self, other: E) -> (r: OrStrict<Self::Endpoint, E::Endpoint>) where
        E: IntoEndpoint<Output = Self::Output>,

        requires
            self.convertible(),
            other.convertible(),
        ensures
            self.converts_to(&r.e1),
            other.converts_to(&r.e2),
    {
        OrStrict { e1: self.into_endpoint(), e2: other.into_endpoint() }
    }
}

impl<E: IntoEndpoint> IntoEndpointExt for E {

}

/// The ways to change what the task of an endpoint yields or fails with.
pub trait EndpointExt: Endpoint + Sized {
    /// This endpoint with its output mapped by `f`.
    fn map<F, R>(self, f: F) -> (r: Mapped<Self, F>) where F: Fn(Self::Output) -> R
        ensures
            r.endpoint == self,
            *r.f == f,
    {
        crate::endpoint::map::map(self, f)
    }

    /// This endpoint with its failure mapped by `f`.
    fn map_err<F>(self, f: F) -> (r: MapErr<Self, F>) where F: Fn(Error) -> Error
        ensures
            r.endpoint == self,
            *r.f == f,
    {
        crate::endpoint::map::map_err(self, f)
    }

    /// This endpoint followed by the task that `f` makes of its output.
    fn and_then<F, T2>(self, f: F) -> (r: AndThen<Self, F, T2>) where
        F: Fn(Self::Output) -> T2,
        T2: Task,

        ensures
            r.endpoint == self,
            *r.f == f,
    {
        crate::endpoint::and_then::and_then(self, f)
    }

    /// This endpoint with the task that `f` makes of its failure in reserve.
    fn recover<F, T2>(self, f: F) -> (r: OrElse<Self, F, T2>) where
        F: Fn(Error) -> T2,
        T2: Task<Output = Self::Output>,

        ensures
            r.endpoint == self,
            *r.f == f,
    {
        crate::endpoint::or_else::or_else(self, f)
    }
}

impl<E: Endpoint> EndpointExt for E {

}

} // verus!
