//! The alternation of two endpoints.
//!
//! Both endpoints are tried from the same position of the cursor. Where both take the
//! request, the one that consumes more segments wins; where they consume equally many, the
//! first wins. The cursor is left where the winner left it, or where it stood if both decline.

use vstd::prelude::*;
use crate::context::{ApplyContext, TaskContext};
use crate::endpoint::Endpoint;
use crate::input::Input;
use crate::task::{Async, PollTask, Task};

verus! {

/// A value of one of two types.
#[derive(Debug)]
pub enum Either<L, R> {
    Left(L),
    Right(R),
}

/// Whether the first of two endpoints wins the request: it takes the request, and the
/// second declines it or consumes no more segments.
pub open spec fn left_wins<E1: Endpoint, E2: Endpoint>(
    e1: &E1,
    e2: &E2,
    input: &Input,
    pos: nat,
) -> bool {
    &&& e1.matches(input, pos)
    &&& e2.matches(input, pos) ==> e1.position_after(input, pos) >= e2.position_after(input, pos)
}

/// Whether the second of two endpoints wins the request: it takes the request, and the
/// first declines it or consumes fewer segments.
pub open spec fn right_wins<E1: Endpoint, E2: Endpoint>(
    e1: &E1,
    e2: &E2,
    input: &Input,
    pos: nat,
) -> bool {
    &&& e2.matches(input, pos)
    &&& e1.matches(input, pos) ==> e1.position_after(input, pos) < e2.position_after(input, pos)
}

/// Where the alternation of two endpoints leaves the cursor.
pub open spec fn position_after_either<E1: Endpoint, E2: Endpoint>(
    e1: &E1,
    e2: &E2,
    input: &Input,
    pos: nat,
) -> nat {
    if left_wins(e1, e2, input, pos) {
        e1.position_after(input, pos)
    } else if right_wins(e1, e2, input, pos) {
        e2.position_after(input, pos)
    } else {
        pos
    }
}

/// Tries both endpoints from where the cursor stands and hands out the task of the one
/// that wins, leaving the cursor where the winner left it.
pub fn apply_either<E1: Endpoint, E2: Endpoint>(e1: &E1, e2: &E2, cx: &mut ApplyContext) -> (r:
    Option<Either<E1::Task, E2::Task>>)
    requires
        e1.wf(),
        e2.wf(),
    ensures
        r is Some <==> e1.matches(&old(cx).request(), old(cx).pos()) || e2.matches(
            &old(cx).request(),
            old(cx).pos(),
        ),
        *final(cx) == old(cx).at(
            position_after_either(e1, e2, &old(cx).request(), old(cx).pos()),
        ),
        final(cx).request() == old(cx).request(),
        final(cx).pos() == position_after_either(e1, e2, &old(cx).request(), old(cx).pos()),
        old(cx).pos() <= final(cx).pos() <= old(cx).segments().len(),
        r matches Some(Either::Left(task)) ==> {
            &&& left_wins(e1, e2, &old(cx).request(), old(cx).pos())
            &&& task.live()
            &&& task.needs_body() ==> e1.takes_body()
            &&& e1.produces(&old(cx).request(), old(cx).pos(), &task)
        },
        r matches Some(Either::Right(task)) ==> {
            &&& right_wins(e1, e2, &old(cx).request(), old(cx).pos())
            &&& task.live()
            &&& task.needs_body() ==> e2.takes_body()
            &&& e2.produces(&old(cx).request(), old(cx).pos(), &task)
        },
{
    broadcast use {ApplyContext::lemma_at, ApplyContext::lemma_at_at, ApplyContext::lemma_at_pos};

    let start = cx.cursor();
    let first = e1.apply(cx);
    let after_first = cx.cursor();
    cx.reset(start);
    let second = e2.apply(cx);
    let after_second = cx.cursor();
    match first {
        Some(task) => {
            if second.is_some() && after_second.consumed > after_first.consumed {
                Some(Either::Right(second.unwrap()))
            } else {
                cx.reset(after_first);
                Some(Either::Left(task))
            }
        },
        None => {
            match second {
                Some(task) => Some(Either::Right(task)),
                None => {
                    cx.reset(start);
                    None
                },
            }
        },
    }
}

/// The endpoint that takes a request when `e1` or `e2` takes it. Its output says which of
/// the two won, and holds the winner's output.
#[derive(Debug, Clone, Copy)]
pub struct Or<E1, E2> {
    pub e1: E1,
    pub e2: E2,
}

impl<E1: Endpoint, E2: Endpoint> Endpoint for Or<E1, E2> {
    type Output = (Either<E1::Output, E2::Output>,);

    type Task = OrTask<E1::Task, E2::Task>;

    open spec fn wf(&self) -> bool {
        self.e1.wf() && self.e2.wf()
    }

    open spec fn takes_body(&self) -> bool {
        self.e1.takes_body() || self.e2.takes_body()
    }

    open spec fn matches(&self, input: &Input, pos: nat) -> bool {
        self.e1.matches(input, pos) || self.e2.matches(input, pos)
    }

    open spec fn position_after(&self, input: &Input, pos: nat) -> nat {
        position_after_either(&self.e1, &self.e2, input, pos)
    }

    open spec fn produces(&self, input: &Input, pos: nat, task: &Self::Task) -> bool {
        match task.inner {
            Either::Left(t) => left_wins(&self.e1, &self.e2, input, pos) && self.e1.produces(
                input,
                pos,
                &t,
            ),
            Either::Right(t) => right_wins(&self.e1, &self.e2, input, pos) && self.e2.produces(
                input,
                pos,
                &t,
            ),
        }
    }

    fn apply(&self, cx: &mut ApplyContext) -> (r: Option<Self::Task>) {
        match apply_either(&self.e1, &self.e2, cx) {
            Some(inner) => Some(OrTask { inner }),
            None => None,
        }
    }
}

/// The task of an alternation: the task of the endpoint that won.
pub struct OrTask<T1, T2> {
    pub inner: Either<T1, T2>,
}

/// The result of a poll, with its output marked as that of the first endpoint.
pub open spec fn in_left<L, R>(p: PollTask<L>) -> PollTask<(Either<L, R>,)> {
    match p {
        Ok(Async::Ready(output)) => Ok(Async::Ready((Either::Left(output),))),
        Ok(Async::NotReady) => Ok(Async::NotReady),
        Err(e) => Err(e),
    }
}

/// The result of a poll, with its output marked as that of the second endpoint.
pub open spec fn in_right<L, R>(p: PollTask<R>) -> PollTask<(Either<L, R>,)> {
    match p {
        Ok(Async::Ready(output)) => Ok(Async::Ready((Either::Right(output),))),
        Ok(Async::NotReady) => Ok(Async::NotReady),
        Err(e) => Err(e),
    }
}

impl<T1: Task, T2: Task> Task for OrTask<T1, T2> {
    type Output = (Either<T1::Output, T2::Output>,);

    open spec fn live(&self) -> bool {
        match self.inner {
            Either::Left(t) => t.live(),
            Either::Right(t) => t.live(),
        }
    }

    open spec fn needs_body(&self) -> bool {
        match self.inner {
            Either::Left(t) => t.needs_body(),
            Either::Right(t) => t.needs_body(),
        }
    }

    /// A poll polls the task that the alternation holds, and marks the output with the side
    /// of that task.
    open spec fn step(
        &self,
        cx: &TaskContext,
        post: &Self,
        cx_post: &TaskContext,
        r: PollTask<Self::Output>,
    ) -> bool {
        match self.inner {
            Either::Left(t) => exists|after: T1, p: PollTask<T1::Output>| #[trigger]
                t.step(cx, &after, cx_post, p) && post.inner == Either::<T1, T2>::Left(after)
                    && r == in_left::<T1::Output, T2::Output>(p),
            Either::Right(t) => exists|after: T2, p: PollTask<T2::Output>| #[trigger]
                t.step(cx, &after, cx_post, p) && post.inner == Either::<T1, T2>::Right(after)
                    && r == in_right::<T1::Output, T2::Output>(p),
        }
    }

    fn poll_task(&mut self, cx: &mut TaskContext) -> (r: PollTask<Self::Output>) {
        match &mut self.inner {
            Either::Left(t) => {
                let p = t.poll_task(cx);
                match p {
                    Ok(Async::Ready(output)) => Ok(Async::Ready((Either::Left(output),))),
                    Ok(Async::NotReady) => Ok(Async::NotReady),
                    Err(e) => Err(e),
                }
            },
            Either::Right(t) => {
                let p = t.poll_task(cx);
                match p {
                    Ok(Async::Ready(output)) => Ok(Async::Ready((Either::Right(output),))),
                    Ok(Async::NotReady) => Ok(Async::NotReady),
                    Err(e) => Err(e),
                }
            },
        }
    }
}

/// The endpoint that takes a request when `e1` or `e2` takes it, where both have the same
/// output. Its output is the winner's.
#[derive(Debug, Clone, Copy)]
pub struct OrStrict<E1, E2> {
    pub e1: E1,
    pub e2: E2,
}

impl<E1: Endpoint, E2: Endpoint<Output = E1::Output>> Endpoint for OrStrict<E1, E2> {
    type Output = E1::Output;

    type Task = OrStrictTask<E1::Task, E2::Task>;

    open spec fn wf(&self) -> bool {
        self.e1.wf() && self.e2.wf()
    }

    open spec fn takes_body(&self) -> bool {
        self.e1.takes_body() || self.e2.takes_body()
    }

    open spec fn matches(&self, input: &Input, pos: nat) -> bool {
        self.e1.matches(input, pos) || self.e2.matches(input, pos)
    }

    open spec fn position_after(&self, input: &Input, pos: nat) -> nat {
        position_after_either(&self.e1, &self.e2, input, pos)
    }

    open spec fn produces(&self, input: &Input, pos: nat, task: &Self::Task) -> bool {
        match task.inner {
            Either::Left(t) => left_wins(&self.e1, &self.e2, input, pos) && self.e1.produces(
                input,
                pos,
                &t,
            ),
            Either::Right(t) => right_wins(&self.e1, &self.e2, input, pos) && self.e2.produces(
                input,
                pos,
                &t,
            ),
        }
    }

    fn apply(&self, cx: &mut ApplyContext) -> (r: Option<Self::Task>) {
        match apply_either(&self.e1, &self.e2, cx) {
            Some(inner) => Some(OrStrictTask { inner }),
            None => None,
        }
    }
}

/// The task of an alternation of endpoints with the same output.
pub struct OrStrictTask<T1, T2> {
    pub inner: Either<T1, T2>,
}

impl<T1: Task, T2: Task<Output = T1::Output>> Task for OrStrictTask<T1, T2> {
    type Output = T1::Output;

    open spec fn live(&self) -> bool {
        match self.inner {
            Either::Left(t) => t.live(),
            Either::Right(t) => t.live(),
        }
    }

    open spec fn needs_body(&self) -> bool {
        match self.inner {
            Either::Left(t) => t.needs_body(),
            Either::Right(t) => t.needs_body(),
        }
    }

    /// A poll polls the task that the alternation holds.
    open spec fn step(
        &self,
        cx: &TaskContext,
        post: &Self,
        cx_post: &TaskContext,
        r: PollTask<Self::Output>,
    ) -> bool {
        match self.inner {
            Either::Left(t) => exists|after: T1| #[trigger]
                t.step(cx, &after, cx_post, r) && post.inner == Either::<T1, T2>::Left(after),
            Either::Right(t) => exists|after: T2| #[trigger]
                t.step(cx, &after, cx_post, r) && post.inner == Either::<T1, T2>::Right(after),
        }
    }

    fn poll_task(&mut self, cx: &mut TaskContext) -> (r: PollTask<Self::Output>) {
        match &mut self.inner {
            Either::Left(t) => {
                let p = t.poll_task(cx);
                p
            },
            Either::Right(t) => {
                let p = t.poll_task(cx);
                p
            },
        }
    }
}

/// Of two endpoints that take a request, the one that consumes more segments wins, and the
/// first wins where both consume equally many. Exactly one of the two wins whenever one of
/// them takes the request.
pub proof fn lemma_priority<E1: Endpoint, E2: Endpoint>(e1: &E1, e2: &E2, input: &Input, pos: nat)
    ensures
        e1.matches(input, pos) || e2.matches(input, pos) ==> (left_wins(e1, e2, input, pos)
            != right_wins(e1, e2, input, pos)),
        !e1.matches(input, pos) && !e2.matches(input, pos) ==> !left_wins(e1, e2, input, pos)
            && !right_wins(e1, e2, input, pos),
        e1.matches(input, pos) && e2.matches(input, pos) && e1.position_after(input, pos)
            == e2.position_after(input, pos) ==> left_wins(e1, e2, input, pos),
        e1.matches(input, pos) && e2.matches(input, pos) && e1.position_after(input, pos)
            < e2.position_after(input, pos) ==> right_wins(e1, e2, input, pos),
        e1.matches(input, pos) && e2.matches(input, pos) && e1.position_after(input, pos)
            > e2.position_after(input, pos) ==> left_wins(e1, e2, input, pos),
{
}

/// Where both endpoints of an alternation take a request and consume equally many segments,
/// the task that the alternation hands out is that of the first, and the cursor is where the
/// first left it.
pub proof fn lemma_tie_goes_left<E1: Endpoint, E2: Endpoint>(
    or: Or<E1, E2>,
    input: &Input,
    pos: nat,
    task: OrTask<E1::Task, E2::Task>,
)
    requires
        or.e1.matches(input, pos),
        or.e2.matches(input, pos),
        or.e1.position_after(input, pos) == or.e2.position_after(input, pos),
        or.produces(input, pos, &task),
    ensures
        task.inner is Left,
        or.e1.produces(input, pos, &task.inner->Left_0),
        or.position_after(input, pos) == or.e1.position_after(input, pos),
{
}

/// An alternation that declines leaves the cursor where it stood, wherever its two sides
/// left it.
pub proof fn lemma_decline_restores<E1: Endpoint, E2: Endpoint>(
    e1: &E1,
    e2: &E2,
    input: &Input,
    pos: nat,
)
    requires
        !e1.matches(input, pos),
        !e2.matches(input, pos),
    ensures
        position_after_either(e1, e2, input, pos) == pos,
{
}

} // verus!
