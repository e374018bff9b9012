//! Endpoints that change what the task of another endpoint yields or fails with.

use std::sync::Arc;
use vstd::prelude::*;
use crate::common::share;
use crate::context::{ApplyContext, TaskContext};
use crate::endpoint::Endpoint;
use crate::error::Error;
use crate::input::Input;
use crate::task::{Async, PollTask, Task};

verus! {

/// The endpoint that matches as `endpoint` does, and whose task yields what `f` makes of
/// the output. A failure passes through.
#[derive(Debug)]
pub struct Mapped<E, F> {
    pub endpoint: E,
    pub f: Arc<F>,
}

/// The endpoint `endpoint` with its output mapped by `f`.
pub fn map<E, F, R>(endpoint: E, f: F) -> (r: Mapped<E, F>) where E: Endpoint, F: Fn(E::Output) -> R
    ensures
        r.endpoint == endpoint,
        *r.f == f,
{
    Mapped { endpoint, f: Arc::new(f) }
}

impl<E: Clone, F> Clone for Mapped<E, F> {
    /// The copy shares the function.
    fn clone(&self) -> (r: Self)
        ensures
            r.f == self.f,
    {
        Mapped { endpoint: self.endpoint.clone(), f: share(&self.f) }
    }
}

impl<E, F, R> Endpoint for Mapped<E, F> where E: Endpoint, F: Fn(E::Output) -> R {
    type Output = (R,);

    type Task = MappedTask<E::Task, F>;

    /// The function must take every output.
    open spec fn wf(&self) -> bool {
        &&& self.endpoint.wf()
        &&& forall|x: E::Output| call_requires(*self.f, (x,))
    }

    open spec fn takes_body(&self) -> bool {
        self.endpoint.takes_body()
    }

    open spec fn matches(&self, input: &Input, pos: nat) -> bool {
        self.endpoint.matches(input, pos)
    }

    open spec fn position_after(&self, input: &Input, pos: nat) -> nat {
        self.endpoint.position_after(input, pos)
    }

    open spec fn produces(&self, input: &Input, pos: nat, task: &Self::Task) -> bool {
        self.endpoint.produces(input, pos, &task.task) && task.f == self.f
    }

    fn apply(&self, cx: &mut ApplyContext) -> (r: Option<Self::Task>) {
        match self.endpoint.apply(cx) {
            Some(task) => Some(MappedTask { task, f: share(&self.f) }),
            None => None,
        }
    }
}

/// The task of `Mapped`.
pub struct MappedTask<T, F> {
    pub task: T,
    pub f: Arc<F>,
}

impl<T, F, R> Task for MappedTask<T, F> where T: Task, F: Fn(T::Output) -> R {
    type Output = (R,);

    open spec fn live(&self) -> bool {
        &&& self.task.live()
        &&& forall|x: T::Output| call_requires(*self.f, (x,))
    }

    open spec fn needs_body(&self) -> bool {
        self.task.needs_body()
    }

    /// A poll polls the inner task. An output is handed to the function, and what the
    /// function returns is yielded; a failure is passed on as it is.
    open spec fn step(
        &self,
        cx: &TaskContext,
        post: &Self,
        cx_post: &TaskContext,
        r: PollTask<(R,)>,
    ) -> bool {
        &&& post.f == self.f
        &&& exists|p: PollTask<T::Output>| #[trigger]
            self.task.step(cx, &post.task, cx_post, p) && match p {
                Ok(Async::Ready(x)) => r matches Ok(Async::Ready(y)) && call_ensures(
                    *self.f,
                    (x,),
                    y.0,
                ),
                Ok(Async::NotReady) => r == Ok::<Async<(R,)>, Error>(Async::NotReady),
                Err(e) => r == Err::<Async<(R,)>, Error>(e),
            }
    }

    fn poll_task(&mut self, cx: &mut TaskContext) -> (r: PollTask<(R,)>) {
        let p = self.task.poll_task(cx);
        proof {
            assert(old(self).task.step(old(cx), &self.task, cx, p));
        }
        match p {
            Ok(Async::Ready(x)) => {
                let y = (self.f)(x);
                Ok(Async::Ready((y,)))
            },
            Ok(Async::NotReady) => Ok(Async::NotReady),
            Err(e) => Err(e),
        }
    }
}

/// The endpoint that matches as `endpoint` does, and whose task fails with what `f` makes
/// of the failure. An output passes through: a failure never becomes an output.
#[derive(Debug)]
pub struct MapErr<E, F> {
    pub endpoint: E,
    pub f: Arc<F>,
}

/// The endpoint `endpoint` with its failure mapped by `f`.
pub fn map_err<E, F>(endpoint: E, f: F) -> (r: MapErr<E, F>) where E: Endpoint, F: Fn(Error) -> Error
    ensures
        r.endpoint == endpoint,
        *r.f == f,
{
    MapErr { endpoint, f: Arc::new(f) }
}

impl<E: Clone, F> Clone for MapErr<E, F> {
    /// The copy shares the function.
    fn clone(&self) -> (r: Self)
        ensures
            r.f == self.f,
    {
        MapErr { endpoint: self.endpoint.clone(), f: share(&self.f) }
    }
}

impl<E, F> Endpoint for MapErr<E, F> where E: Endpoint, F: Fn(Error) -> Error {
    type Output = E::Output;

    type Task = MapErrTask<E::Task, F>;

    /// The function must take every failure.
    open spec fn wf(&self) -> bool {
        &&& self.endpoint.wf()
        &&& forall|e: Error| call_requires(*self.f, (e,))
    }

    open spec fn takes_body(&self) -> bool {
        self.endpoint.takes_body()
    }

    open spec fn matches(&self, input: &Input, pos: nat) -> bool {
        self.endpoint.matches(input, pos)
    }

    open spec fn position_after(&self, input: &Input, pos: nat) -> nat {
        self.endpoint.position_after(input, pos)
    }

    open spec fn produces(&self, input: &Input, pos: nat, task: &Self::Task) -> bool {
        self.endpoint.produces(input, pos, &task.task) && task.f == self.f
    }

    fn apply(&self, cx: &mut ApplyContext) -> (r: Option<Self::Task>) {
        match self.endpoint.apply(cx) {
            Some(task) => Some(MapErrTask { task, f: share(&self.f) }),
            None => None,
        }
    }
}

/// The task of `MapErr`.
pub struct MapErrTask<T, F> {
    pub task: T,
    pub f: Arc<F>,
}

impl<T, F> Task for MapErrTask<T, F> where T: Task, F: Fn(Error) -> Error {
    type Output = T::Output;

    open spec fn live(&self) -> bool {
        &&& self.task.live()
        &&& forall|e: Error| call_requires(*self.f, (e,))
    }

    open spec fn needs_body(&self) -> bool {
        self.task.needs_body()
    }

    /// A poll polls the inner task. A failure is handed to the function, and the poll fails
    /// with what the function returns; anything else is passed on as it is.
    open spec fn step(
        &self,
        cx: &TaskContext,
        post: &Self,
        cx_post: &TaskContext,
        r: PollTask<T::Output>,
    ) -> bool {
        &&& post.f == self.f
        &&& exists|p: PollTask<T::Output>| #[trigger]
            self.task.step(cx, &post.task, cx_post, p) && match p {
                Err(e) => r matches Err(mapped) && call_ensures(*self.f, (e,), mapped),
                _ => r == p,
            }
    }

    fn poll_task(&mut self, cx: &mut TaskContext) -> (r: PollTask<T::Output>) {
        let p = self.task.poll_task(cx);
        proof {
            assert(old(self).task.step(old(cx), &self.task, cx, p));
        }
        match p {
            Err(e) => Err((self.f)(e)),
            other => other,
        }
    }
}

} // verus!
