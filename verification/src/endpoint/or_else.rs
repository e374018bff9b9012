//! The endpoint whose task, where a first task fails, goes on to a second one.

use std::marker::PhantomData;
use std::sync::Arc;
use vstd::prelude::*;
use crate::common::share;
use crate::context::{ApplyContext, TaskContext};
use crate::endpoint::Endpoint;
use crate::error::Error;
use crate::input::Input;
use crate::endpoint::and_then::{asks_for_body, makes_tasks};
use crate::task::{Async, PollTask, Task};

verus! {

/// The endpoint that matches as `endpoint` does. Where the task of `endpoint` fails, its
/// task runs the task that `f` makes of the failure. No other endpoint turns a failure into
/// an output.
#[derive(Debug)]
pub struct OrElse<E, F, T2> {
    pub endpoint: E,
    pub f: Arc<F>,
    pub _marker: PhantomData<T2>,
}

/// The endpoint `endpoint` with the task that `f` makes of its failure in reserve.
pub fn or_else<E, F, T2>(endpoint: E, f: F) -> (r: OrElse<E, F, T2>) where
    E: Endpoint,
    F: Fn(Error) -> T2,
    T2: Task<Output = E::Output>,

    ensures
        r.endpoint == endpoint,
        *r.f == f,
{
    OrElse { endpoint, f: Arc::new(f), _marker: PhantomData }
}

impl<E: Clone, F, T2> Clone for OrElse<E, F, T2> {
    /// The copy shares the function.
    fn clone(&self) -> (r: Self)
        ensures
            r.f == self.f,
    {
        OrElse { endpoint: self.endpoint.clone(), f: share(&self.f), _marker: PhantomData }
    }
}

impl<E, F, T2> Endpoint for OrElse<E, F, T2> where
    E: Endpoint,
    F: Fn(Error) -> T2,
    T2: Task<Output = E::Output>,
 {
    type Output = T2::Output;

    type Task = OrElseTask<E::Task, F, T2>;

    /// The function must take every argument and return tasks that can be polled. The
    /// handle of the body is for one of the two stages only.
    open spec fn wf(&self) -> bool {
        &&& self.endpoint.wf()
        &&& makes_tasks::<Error, F, T2>(*self.f)
        &&& !(self.endpoint.takes_body() && asks_for_body::<Error, F, T2>(*self.f))
    }

    open spec fn takes_body(&self) -> bool {
        self.endpoint.takes_body() || asks_for_body::<Error, F, T2>(*self.f)
    }

    open spec fn matches(&self, input: &Input, pos: nat) -> bool {
        self.endpoint.matches(input, pos)
    }

    open spec fn position_after(&self, input: &Input, pos: nat) -> nat {
        self.endpoint.position_after(input, pos)
    }

    open spec fn produces(&self, input: &Input, pos: nat, task: &Self::Task) -> bool {
        task matches OrElseTask::First(first, f) && self.endpoint.produces(input, pos, &first)
            && f == self.f
    }

    fn apply(&self, cx: &mut ApplyContext) -> (r: Option<Self::Task>) {
        match self.endpoint.apply(cx) {
            Some(task) => Some(OrElseTask::<E::Task, F, T2>::First(task, share(&self.f))),
            None => None,
        }
    }
}

/// The task of `OrElse`.
pub enum OrElseTask<T1, F, T2> {
    /// The first task has not yielded its output or failed.
    First(T1, Arc<F>),
    /// The first task has failed, and the second task was made of the failure.
    Second(T2),
    /// The task has yielded its output or failed.
    Done,
}

/// What the task becomes when a poll of its second stage returned `r` and left the stage
/// as `after`.
pub open spec fn after_reserve<T1, F, T2: Task>(
    after: T2,
    r: PollTask<T2::Output>,
    post: OrElseTask<T1, F, T2>,
) -> bool {
    post == (match r {
        Ok(Async::NotReady) => OrElseTask::<T1, F, T2>::Second(after),
        _ => OrElseTask::<T1, F, T2>::Done,
    })
}

impl<T1, F, T2> Task for OrElseTask<T1, F, T2> where
    T1: Task,
    F: Fn(Error) -> T2,
    T2: Task<Output = T1::Output>,
 {
    type Output = T2::Output;

    open spec fn live(&self) -> bool {
        match self {
            OrElseTask::First(first, f) => {
                &&& first.live()
                &&& makes_tasks::<Error, F, T2>(**f)
                &&& !(first.needs_body() && asks_for_body::<Error, F, T2>(**f))
            },
            OrElseTask::Second(second) => second.live(),
            OrElseTask::Done => false,
        }
    }

    open spec fn needs_body(&self) -> bool {
        match self {
            OrElseTask::First(first, f) => first.needs_body() || asks_for_body::<Error, F, T2>(**f),
            OrElseTask::Second(second) => second.needs_body(),
            OrElseTask::Done => false,
        }
    }

    /// A poll polls the first task until it has yielded its output or failed. Its output is
    /// the output of the whole, and no second task is made. Once it has failed, the same poll
    /// makes the second task of the failure and polls that one, as every later poll does; the
    /// failure of the second task is the failure of the whole.
    open spec fn step(
        &self,
        cx: &TaskContext,
        post: &Self,
        cx_post: &TaskContext,
        r: PollTask<T2::Output>,
    ) -> bool {
        match *self {
            OrElseTask::First(first, f) => exists|
                after: T1,
                mid: TaskContext,
                p: PollTask<T1::Output>,
            | #[trigger]
                first.step(cx, &after, &mid, p) && match p {
                    Ok(Async::NotReady) => *post == OrElseTask::<T1, F, T2>::First(after, f)
                        && *cx_post == mid && r == Ok::<Async<T2::Output>, Error>(
                        Async::NotReady,
                    ),
                    Ok(Async::Ready(x)) => *post == OrElseTask::<T1, F, T2>::Done && *cx_post
                        == mid && r == Ok::<Async<T2::Output>, Error>(Async::Ready(x)),
                    Err(e) => exists|second: T2, after2: T2|
                        call_ensures(*f, (e,), second) && #[trigger] second.step(
                            &mid,
                            &after2,
                            cx_post,
                            r,
                        ) && after_reserve(after2, r, *post),
                },
            OrElseTask::Second(second) => exists|after2: T2| #[trigger]
                second.step(cx, &after2, cx_post, r) && after_reserve(after2, r, *post),
            OrElseTask::Done => false,
        }
    }

    fn poll_task(&mut self, cx: &mut TaskContext) -> (r: PollTask<T2::Output>) {
        let mut state: OrElseTask<T1, F, T2> = OrElseTask::<T1, F, T2>::Done;
        std::mem::swap(self, &mut state);
        let mut second: T2 = match state {
            OrElseTask::First(mut first, f) => {
                let p = first.poll_task(cx);
                match p {
                    Ok(Async::NotReady) => {
                        *self = OrElseTask::<T1, F, T2>::First(first, f);
                        return Ok(Async::NotReady);
                    },
                    Ok(Async::Ready(x)) => {
                        return Ok(Async::Ready(x));
                    },
                    Err(e) => (*f)(e),
                }
            },
            OrElseTask::Second(second) => second,
            OrElseTask::Done => vstd::pervasive::unreached::<T2>(),
        };
        let r = second.poll_task(cx);
        match r {
            Ok(Async::NotReady) => {
                *self = OrElseTask::<T1, F, T2>::Second(second);
                Ok(Async::NotReady)
            },
            other => other,
        }
    }
}

} // verus!
