//! The endpoint whose task goes on, with the output of a first task, to a second one.

use std::marker::PhantomData;
use std::sync::Arc;
use vstd::prelude::*;
use crate::common::share;
use crate::context::{ApplyContext, TaskContext};
use crate::endpoint::Endpoint;
use crate::error::Error;
use crate::input::Input;
use crate::task::{Async, PollTask, Task};

verus! {

/// The endpoint that matches as `endpoint` does. Its task runs the task of `endpoint` and
/// then the task that `f` makes of the output.
#[derive(Debug)]
pub struct AndThen<E, F, T2> {
    pub endpoint: E,
    pub f: Arc<F>,
    pub _marker: PhantomData<T2>,
}

/// The endpoint `endpoint` followed by the task that `f` makes of its output.
pub fn and_then<E, F, T2>(endpoint: E, f: F) -> (r: AndThen<E, F, T2>) where
    E: Endpoint,
    F: Fn(E::Output) -> T2,
    T2: Task,

    ensures
        r.endpoint == endpoint,
        *r.f == f,
{
    AndThen { endpoint, f: Arc::new(f), _marker: PhantomData }
}

/// Whether `f` takes every argument and returns only tasks that can be polled.
pub open spec fn makes_tasks<A, F: Fn(A) -> T2, T2: Task>(f: F) -> bool {
    &&& forall|x: A| call_requires(f, (x,))
    &&& forall|x: A, t: T2| call_ensures(f, (x,), t) ==> t.live()
}

/// Whether a task that `f` returns may take the handle of the request's body.
pub open spec fn asks_for_body<A, F: Fn(A) -> T2, T2: Task>(f: F) -> bool {
    exists|x: A, t: T2| #[trigger] call_ensures(f, (x,), t) && t.needs_body()
}

impl<E: Clone, F, T2> Clone for AndThen<E, F, T2> {
    /// The copy shares the function.
    fn clone(&self) -> (r: Self)
        ensures
            r.f == self.f,
    {
        AndThen { endpoint: self.endpoint.clone(), f: share(&self.f), _marker: PhantomData }
    }
}

impl<E, F, T2> Endpoint for AndThen<E, F, T2> where E: Endpoint, F: Fn(E::Output) -> T2, T2: Task {
    type Output = T2::Output;

    type Task = AndThenTask<E::Task, F, T2>;

    /// The function must take every argument and return tasks that can be polled. The
    /// handle of the body is for one of the two stages only.
    open spec fn wf(&self) -> bool {
        &&& self.endpoint.wf()
        &&& makes_tasks::<E::Output, F, T2>(*self.f)
        &&& !(self.endpoint.takes_body() && asks_for_body::<E::Output, F, T2>(*self.f))
    }

    open spec fn takes_body(&self) -> bool {
        self.endpoint.takes_body() || asks_for_body::<E::Output, F, T2>(*self.f)
    }

    open spec fn matches(&self, input: &Input, pos: nat) -> bool {
        self.endpoint.matches(input, pos)
    }

    open spec fn position_after(&self, input: &Input, pos: nat) -> nat {
        self.endpoint.position_after(input, pos)
    }

    open spec fn produces(&self, input: &Input, pos: nat, task: &Self::Task) -> bool {
        task matches AndThenTask::First(first, f) && self.endpoint.produces(input, pos, &first)
            && f == self.f
    }

    fn apply(&self, cx: &mut ApplyContext) -> (r: Option<Self::Task>) {
        match self.endpoint.apply(cx) {
            Some(task) => Some(AndThenTask::<E::Task, F, T2>::First(task, share(&self.f))),
            None => None,
        }
    }
}

/// The task of `AndThen`.
pub enum AndThenTask<T1, F, T2> {
    /// The first task has not yielded its output.
    First(T1, Arc<F>),
    /// The first task has yielded its output, and the second task was made of it.
    Second(T2),
    /// The task has yielded its output or failed.
    Done,
}

/// What a two-stage task becomes when a poll of its second stage returned `r` and left the
/// stage as `after`.
pub open spec fn after_second<T1, F, T2: Task>(
    after: T2,
    r: PollTask<T2::Output>,
    post: AndThenTask<T1, F, T2>,
) -> bool {
    post == (match r {
        Ok(Async::NotReady) => AndThenTask::<T1, F, T2>::Second(after),
        _ => AndThenTask::<T1, F, T2>::Done,
    })
}

impl<T1, F, T2> Task for AndThenTask<T1, F, T2> where T1: Task, F: Fn(T1::Output) -> T2, T2: Task {
    type Output = T2::Output;

    open spec fn live(&self) -> bool {
        match self {
            AndThenTask::First(first, f) => {
                &&& first.live()
                &&& makes_tasks::<T1::Output, F, T2>(**f)
                &&& !(first.needs_body() && asks_for_body::<T1::Output, F, T2>(**f))
            },
            AndThenTask::Second(second) => second.live(),
            AndThenTask::Done => false,
        }
    }

    open spec fn needs_body(&self) -> bool {
        match self {
            AndThenTask::First(first, f) => first.needs_body() || asks_for_body::<T1::Output, F, T2>(**f),
            AndThenTask::Second(second) => second.needs_body(),
            AndThenTask::Done => false,
        }
    }

    /// A poll polls the first task until it has yielded its output. A failure of the first
    /// task is the failure of the whole, and no second task is made. Once the output is
    /// there, the same poll makes the second task of it and polls that one, as every later
    /// poll does.
    open spec fn step(
        &self,
        cx: &TaskContext,
        post: &Self,
        cx_post: &TaskContext,
        r: PollTask<T2::Output>,
    ) -> bool {
        match *self {
            AndThenTask::First(first, f) => exists|
                after: T1,
                mid: TaskContext,
                p: PollTask<T1::Output>,
            | #[trigger]
                first.step(cx, &after, &mid, p) && match p {
                    Ok(Async::NotReady) => *post == AndThenTask::<T1, F, T2>::First(after, f)
                        && *cx_post == mid && r == Ok::<Async<T2::Output>, Error>(
                        Async::NotReady,
                    ),
                    Err(e) => *post == AndThenTask::<T1, F, T2>::Done && *cx_post == mid && r
                        == Err::<Async<T2::Output>, Error>(e),
                    Ok(Async::Ready(x)) => exists|second: T2, after2: T2|
                        call_ensures(*f, (x,), second) && #[trigger] second.step(
                            &mid,
                            &after2,
                            cx_post,
                            r,
                        ) && after_second(after2, r, *post),
                },
            AndThenTask::Second(second) => exists|after2: T2| #[trigger]
                second.step(cx, &after2, cx_post, r) && after_second(after2, r, *post),
            AndThenTask::Done => false,
        }
    }

    fn poll_task(&mut self, cx: &mut TaskContext) -> (r: PollTask<T2::Output>) {
        let mut state: AndThenTask<T1, F, T2> = AndThenTask::<T1, F, T2>::Done;
        std::mem::swap(self, &mut state);
        let mut second: T2 = match state {
            AndThenTask::First(mut first, f) => {
                let p = first.poll_task(cx);
                match p {
                    Ok(Async::NotReady) => {
                        *self = AndThenTask::<T1, F, T2>::First(first, f);
                        return Ok(Async::NotReady);
                    },
                    Err(e) => {
                        return Err(e);
                    },
                    Ok(Async::Ready(x)) => (*f)(x),
                }
            },
            AndThenTask::Second(second) => second,
            AndThenTask::Done => vstd::pervasive::unreached::<T2>(),
        };
        let r = second.poll_task(cx);
        match r {
            Ok(Async::NotReady) => {
                *self = AndThenTask::<T1, F, T2>::Second(second);
                Ok(Async::NotReady)
            },
            other => other,
        }
    }
}

} // verus!
