//! Endpoints that check the method of a request.

use vstd::prelude::*;
use crate::context::ApplyContext;
use crate::endpoint::Endpoint;
use crate::input::{Input, Method};

verus! {

/// The endpoint that takes a request when its method is `method` and `endpoint` takes it.
/// Looking at the method consumes no segment.
#[derive(Debug, Clone)]
pub struct MatchMethod<E> {
    pub method: Method,
    pub endpoint: E,
}

/// The endpoint `endpoint` for requests of the method `verb` only.
pub fn method<E: Endpoint>(verb: Method, endpoint: E) -> (r: MatchMethod<E>)
    ensures
        r.method == verb,
        r.endpoint == endpoint,
{
    MatchMethod { method: verb, endpoint }
}

impl<E: Endpoint> Endpoint for MatchMethod<E> {
    type Output = E::Output;

    type Task = E::Task;

    open spec fn wf(&self) -> bool {
        self.endpoint.wf()
    }

    open spec fn takes_body(&self) -> bool {
        self.endpoint.takes_body()
    }

    /// The method of the request must have the name of the method asked for.
    open spec fn matches(&self, input: &Input, pos: nat) -> bool {
        input.spec_method().token() == self.method.token() && self.endpoint.matches(input, pos)
    }

    /// For another method the cursor stays.
    open spec fn position_after(&self, input: &Input, pos: nat) -> nat {
        if input.spec_method().token() == self.method.token() {
            self.endpoint.position_after(input, pos)
        } else {
            pos
        }
    }

    open spec fn produces(&self, input: &Input, pos: nat, task: &Self::Task) -> bool {
        self.endpoint.produces(input, pos, task)
    }

    fn apply(&self, cx: &mut ApplyContext) -> (r: Option<Self::Task>) {
        broadcast use ApplyContext::lemma_at_pos;

        let _ = cx.position();
        if cx.input().method().is(&self.method) {
            self.endpoint.apply(cx)
        } else {
            None
        }
    }
}

/// The endpoint `endpoint` for `GET` requests only.
pub fn get<E: Endpoint>(endpoint: E) -> (r: MatchMethod<E>)
    ensures
        r.method == Method::Get,
        r.endpoint == endpoint,
{
    MatchMethod { method: Method::Get, endpoint }
}

/// The endpoint `endpoint` for `POST` requests only.
pub fn post<E: Endpoint>(endpoint: E) -> (r: MatchMethod<E>)
    ensures
        r.method == Method::Post,
        r.endpoint == endpoint,
{
    MatchMethod { method: Method::Post, endpoint }
}

/// The endpoint `endpoint` for `PUT` requests only.
pub fn put<E: Endpoint>(endpoint: E) -> (r: MatchMethod<E>)
    ensures
        r.method == Method::Put,
        r.endpoint == endpoint,
{
    MatchMethod { method: Method::Put, endpoint }
}

/// The endpoint `endpoint` for `DELETE` requests only.
pub fn delete<E: Endpoint>(endpoint: E) -> (r: MatchMethod<E>)
    ensures
        r.method == Method::Delete,
        r.endpoint == endpoint,
{
    MatchMethod { method: Method::Delete, endpoint }
}

/// The endpoint `endpoint` for `HEAD` requests only.
pub fn head<E: Endpoint>(endpoint: E) -> (r: MatchMethod<E>)
    ensures
        r.method == Method::Head,
        r.endpoint == endpoint,
{
    MatchMethod { method: Method::Head, endpoint }
}

/// The endpoint `endpoint` for `PATCH` requests only.
pub fn patch<E: Endpoint>(endpoint: E) -> (r: MatchMethod<E>)
    ensures
        r.method == Method::Patch,
        r.endpoint == endpoint,
{
    MatchMethod { method: Method::Patch, endpoint }
}

/// The endpoint `endpoint` for `TRACE` requests only.
pub fn trace<E: Endpoint>(endpoint: E) -> (r: MatchMethod<E>)
    ensures
        r.method == Method::Trace,
        r.endpoint == endpoint,
{
    MatchMethod { method: Method::Trace, endpoint }
}

/// The endpoint `endpoint` for `CONNECT` requests only.
pub fn connect<E: Endpoint>(endpoint: E) -> (r: MatchMethod<E>)
    ensures
        r.method == Method::Connect,
        r.endpoint == endpoint,
{
    MatchMethod { method: Method::Connect, endpoint }
}

/// The endpoint `endpoint` for `OPTIONS` requests only.
pub fn options<E: Endpoint>(endpoint: E) -> (r: MatchMethod<E>)
    ensures
        r.method == Method::Options,
        r.endpoint == endpoint,
{
    MatchMethod { method: Method::Options, endpoint }
}

} // verus!
