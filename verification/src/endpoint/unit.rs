//! Endpoints that take every request and consume nothing.

use std::sync::Arc;
use vstd::prelude::*;
use crate::common::share;
use crate::context::ApplyContext;
use crate::endpoint::Endpoint;
use crate::error::Error;
use crate::input::Input;
use crate::task::{failed, ready, Immediate};

verus! {

/// The endpoint whose task yields `()`.
#[derive(Debug, Copy, Clone)]
pub struct Unit {
    pub _priv: (),
}

/// The endpoint whose task yields `()`.
pub fn unit() -> (r: Unit)
    ensures
        r == (Unit { _priv: () }),
{
    Unit { _priv: () }
}

impl Endpoint for Unit {
    type Output = ();

    type Task = Immediate<()>;

    open spec fn wf(&self) -> bool {
        true
    }

    open spec fn takes_body(&self) -> bool {
        false
    }

    open spec fn matches(&self, input: &Input, pos: nat) -> bool {
        true
    }

    open spec fn position_after(&self, input: &Input, pos: nat) -> nat {
        pos
    }

    open spec fn produces(&self, input: &Input, pos: nat, task: &Self::Task) -> bool {
        task.outcome == Some(Ok::<(), Error>(()))
    }

    fn apply(&self, cx: &mut ApplyContext) -> (r: Option<Self::Task>) {
        broadcast use ApplyContext::lemma_at_pos;

        let _ = cx.position();
        Some(ready(()))
    }
}

/// The endpoint whose task yields a clone of a value.
#[derive(Debug, Clone)]
pub struct Cloned<T> {
    pub value: T,
}

/// The endpoint whose task yields a clone of `x`.
pub fn cloned<T: Clone>(x: T) -> (r: Cloned<T>)
    ensures
        r.value == x,
{
    Cloned { value: x }
}

/// The endpoint whose task yields a clone of `x`.
pub fn value<T: Clone>(x: T) -> (r: Cloned<T>)
    ensures
        r.value == x,
{
    Cloned { value: x }
}

impl<T: Clone> Endpoint for Cloned<T> {
    type Output = (T,);

    type Task = Immediate<(T,)>;

    open spec fn wf(&self) -> bool {
        true
    }

    open spec fn takes_body(&self) -> bool {
        false
    }

    open spec fn matches(&self, input: &Input, pos: nat) -> bool {
        true
    }

    open spec fn position_after(&self, input: &Input, pos: nat) -> nat {
        pos
    }

    open spec fn produces(&self, input: &Input, pos: nat, task: &Self::Task) -> bool {
        task.outcome matches Some(Ok(output)) && vstd::pervasive::cloned::<T>(self.value, output.0)
    }

    fn apply(&self, cx: &mut ApplyContext) -> (r: Option<Self::Task>) {
        broadcast use ApplyContext::lemma_at_pos;

        let _ = cx.position();
        Some(ready((self.value.clone(),)))
    }
}

/// The endpoint whose task yields a clone of a tuple, as its whole output.
#[derive(Debug, Clone)]
pub struct Always<T> {
    pub output: T,
}

/// The endpoint whose task yields a clone of the tuple `output`.
pub fn ok<T: Clone>(output: T) -> (r: Always<T>)
    ensures
        r.output == output,
{
    Always { output }
}

impl<T: Clone> Endpoint for Always<T> {
    type Output = T;

    type Task = Immediate<T>;

    open spec fn wf(&self) -> bool {
        true
    }

    open spec fn takes_body(&self) -> bool {
        false
    }

    open spec fn matches(&self, input: &Input, pos: nat) -> bool {
        true
    }

    open spec fn position_after(&self, input: &Input, pos: nat) -> nat {
        pos
    }

    open spec fn produces(&self, input: &Input, pos: nat, task: &Self::Task) -> bool {
        task.outcome matches Some(Ok(output)) && vstd::pervasive::cloned::<T>(self.output, output)
    }

    fn apply(&self, cx: &mut ApplyContext) -> (r: Option<Self::Task>) {
        broadcast use ApplyContext::lemma_at_pos;

        let _ = cx.position();
        Some(ready(self.output.clone()))
    }
}

/// The endpoint whose task fails with the failure that a function makes of the request.
pub struct Reject<F, T> {
    pub f: Arc<F>,
    pub _marker: std::marker::PhantomData<T>,
}

/// The endpoint whose task fails with what `f` makes of the request.
pub fn reject<F: Fn(&Input) -> Error, T>(f: F) -> (r: Reject<F, T>)
    ensures
        *r.f == f,
{
    Reject { f: Arc::new(f), _marker: std::marker::PhantomData }
}

impl<F, T> Clone for Reject<F, T> {
    /// The copy shares the function.
    fn clone(&self) -> (r: Self)
        ensures
            r.f == self.f,
    {
        Reject { f: share(&self.f), _marker: std::marker::PhantomData }
    }
}

impl<F: Fn(&Input) -> Error, T> Endpoint for Reject<F, T> {
    type Output = T;

    type Task = Immediate<T>;

    /// The function must take every request.
    open spec fn wf(&self) -> bool {
        forall|input: &Input| call_requires(*self.f, (input,))
    }

    open spec fn takes_body(&self) -> bool {
        false
    }

    open spec fn matches(&self, input: &Input, pos: nat) -> bool {
        true
    }

    open spec fn position_after(&self, input: &Input, pos: nat) -> nat {
        pos
    }

    open spec fn produces(&self, input: &Input, pos: nat, task: &Self::Task) -> bool {
        task.outcome matches Some(Err(e)) && call_ensures(*self.f, (input,), e)
    }

    fn apply(&self, cx: &mut ApplyContext) -> (r: Option<Self::Task>) {
        broadcast use ApplyContext::lemma_at_pos;

        let _ = cx.position();
        let f = share(&self.f);
        let e = f(cx.input());
        Some(failed(e))
    }
}

/// The endpoint whose task yields what a function makes of the request.
pub struct Lazy<F, T> {
    pub f: Arc<F>,
    pub _marker: std::marker::PhantomData<T>,
}

/// The endpoint whose task yields what `f` makes of the request.
pub fn lazy<F: Fn(&Input) -> T, T>(f: F) -> (r: Lazy<F, T>)
    ensures
        *r.f == f,
{
    Lazy { f: Arc::new(f), _marker: std::marker::PhantomData }
}

impl<F, T> Clone for Lazy<F, T> {
    /// The copy shares the function.
    fn clone(&self) -> (r: Self)
        ensures
            r.f == self.f,
    {
        Lazy { f: share(&self.f), _marker: std::marker::PhantomData }
    }
}

impl<F: Fn(&Input) -> T, T> Endpoint for Lazy<F, T> {
    type Output = (T,);

    type Task = Immediate<(T,)>;

    /// The function must take every request.
    open spec fn wf(&self) -> bool {
        forall|input: &Input| call_requires(*self.f, (input,))
    }

    open spec fn takes_body(&self) -> bool {
        false
    }

    open spec fn matches(&self, input: &Input, pos: nat) -> bool {
        true
    }

    open spec fn position_after(&self, input: &Input, pos: nat) -> nat {
        pos
    }

    open spec fn produces(&self, input: &Input, pos: nat, task: &Self::Task) -> bool {
        task.outcome matches Some(Ok(output)) && call_ensures(*self.f, (input,), output.0)
    }

    fn apply(&self, cx: &mut ApplyContext) -> (r: Option<Self::Task>) {
        broadcast use ApplyContext::lemma_at_pos;

        let _ = cx.position();
        let f = share(&self.f);
        let value = f(cx.input());
        Some(ready((value,)))
    }
}

} // verus!
