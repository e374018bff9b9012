//! The unit of work that a matched endpoint hands to the driver.
//!
//! A task is polled until it yields its output or fails. A poll may take the handle of the
//! request's body from the context; a task says beforehand whether it may still do so, which
//! is how a combinator knows that no two of its parts will ask for the one handle.

use vstd::prelude::*;
use crate::context::TaskContext;
use crate::error::Error;

verus! {

/// What a poll found: the final value, or nothing yet.
#[derive(Debug)]
pub enum Async<T> {
    Ready(T),
    NotReady,
}

/// What a poll returns: the final value, nothing yet, or the failure of the task.
pub type PollTask<T> = Result<Async<T>, Error>;

/// A computation that is polled until it yields its output or fails.
pub trait Task: Sized {
    type Output;

    /// Whether the task has not yet yielded its output or failed. Only such a task may be
    /// polled.
    spec fn live(&self) -> bool;

    /// Whether the task may still take the handle of the request's body.
    spec fn needs_body(&self) -> bool;

    /// Whether a poll of the task in the context `cx` can return `r`, leaving the task as
    /// `post` and the context as `cx_post`.
    spec fn step(
        &self,
        cx: &TaskContext,
        post: &Self,
        cx_post: &TaskContext,
        r: PollTask<Self::Output>,
    ) -> bool;

    /// Polls the task once.
    fn poll_task(&mut self, cx: &mut TaskContext) -> (r: PollTask<Self::Output>)
        requires
            old(self).live(),
            old(self).needs_body() ==> old(cx).has_body(),
        ensures
            old(self).step(old(cx), final(self), final(cx), r),
            final(self).live() <==> r matches Ok(Async::NotReady),
            final(self).needs_body() ==> old(self).needs_body(),
            final(self).needs_body() || !old(self).needs_body() ==> final(cx).has_body() == old(
                cx,
            ).has_body(),
    ;
}

/// A task, or the output that it has yielded.
pub enum MaybeDone<T: Task> {
    /// The task has not yielded its output yet.
    Pending(T),
    /// The task has yielded this output and is gone.
    Done(T::Output),
    /// The task failed or was discarded, or its output was taken.
    Gone,
}

impl<T: Task> MaybeDone<T> {
    /// Whether the slot holds an output or a task that may be polled.
    pub open spec fn usable(&self) -> bool {
        match self {
            MaybeDone::Pending(task) => task.live(),
            MaybeDone::Done(_) => true,
            MaybeDone::Gone => false,
        }
    }

    /// Whether the slot holds a task that may still take the handle of the request's body.
    pub open spec fn needs_body(&self) -> bool {
        self matches MaybeDone::Pending(task) && task.needs_body()
    }

    /// The output that the slot holds.
    pub open spec fn item(&self) -> T::Output
        recommends
            self is Done,
    {
        self->Done_0
    }

    /// Whether `poll_done` in the context `cx` can return `r`, leaving the slot as `post`
    /// and the context as `cx_post`. A slot that holds an output is not polled: it stays, and
    /// so does the context.
    pub open spec fn step(
        &self,
        cx: &TaskContext,
        post: &Self,
        cx_post: &TaskContext,
        r: Result<bool, Error>,
    ) -> bool {
        match *self {
            MaybeDone::Pending(task) => exists|after: T, p: PollTask<T::Output>|
                #[trigger] task.step(cx, &after, cx_post, p) && slot_after(after, p, *post, r),
            MaybeDone::Done(_) => *post == *self && *cx_post == *cx && r == Ok::<bool, Error>(
                true,
            ),
            MaybeDone::Gone => false,
        }
    }

    /// Polls the task if the slot holds one, and keeps its output in the slot. Returns
    /// whether the slot now holds an output.
    pub fn poll_done(&mut self, cx: &mut TaskContext) -> (r: Result<bool, Error>)
        requires
            old(self).usable(),
            old(self).needs_body() ==> old(cx).has_body(),
        ensures
            old(self).step(old(cx), final(self), final(cx), r),
            r is Ok ==> final(self).usable(),
            r is Err ==> *final(self) is Gone,
            r == Ok::<bool, Error>(true) <==> *final(self) is Done,
            final(self).needs_body() ==> old(self).needs_body(),
            final(self).needs_body() || !old(self).needs_body() ==> final(cx).has_body() == old(
                cx,
            ).has_body(),
    {
        match self {
            MaybeDone::Pending(task) => {
                let p = task.poll_task(cx);
                match p {
                    Ok(Async::Ready(output)) => {
                        *self = MaybeDone::Done(output);
                        Ok(true)
                    },
                    Ok(Async::NotReady) => Ok(false),
                    Err(e) => {
                        *self = MaybeDone::Gone;
                        Err(e)
                    },
                }
            },
            MaybeDone::Done(_) => Ok(true),
            MaybeDone::Gone => Ok(false),
        }
    }

    /// Takes the output out of the slot.
    pub fn take_item(&mut self) -> (r: T::Output)
        requires
            *old(self) is Done,
        ensures
            r == old(self).item(),
            *final(self) is Gone,
    {
        let mut slot = MaybeDone::Gone;
        std::mem::swap(self, &mut slot);
        match slot {
            MaybeDone::Done(output) => output,
            _ => vstd::pervasive::unreached(),
        }
    }

    /// Discards what the slot holds.
    pub fn erase(&mut self)
        ensures
            *final(self) is Gone,
    {
        *self = MaybeDone::Gone;
    }
}

/// What a slot becomes, and what `poll_done` returns, when the poll of its task returned `p`
/// and left the task as `after`.
pub open spec fn slot_after<T: Task>(
    after: T,
    p: PollTask<T::Output>,
    post: MaybeDone<T>,
    r: Result<bool, Error>,
) -> bool {
    match p {
        Ok(Async::Ready(output)) => post == MaybeDone::<T>::Done(output) && r == Ok::<bool, Error>(
            true,
        ),
        Ok(Async::NotReady) => post == MaybeDone::Pending(after) && r == Ok::<bool, Error>(false),
        Err(e) => post == MaybeDone::<T>::Gone && r == Err::<bool, Error>(e),
    }
}

/// Whether the slot `slot` comes to hold `output`: it holds it already, or it holds a task
/// of which some poll yields it.
pub open spec fn slot_yields<T: Task>(slot: MaybeDone<T>, output: T::Output) -> bool {
    match slot {
        MaybeDone::Done(kept) => kept == output,
        MaybeDone::Pending(task) => exists|cx: TaskContext, after: T, cx_post: TaskContext| #[trigger]
            task.step(&cx, &after, &cx_post, Ok::<Async<T::Output>, Error>(Async::Ready(output))),
        MaybeDone::Gone => false,
    }
}

/// A slot that holds an output is never polled again: `poll_done` leaves the slot and the
/// context as they are.
pub proof fn lemma_done_slot_rests<T: Task>(
    slot: MaybeDone<T>,
    cx: TaskContext,
    post: MaybeDone<T>,
    cx_post: TaskContext,
    r: Result<bool, Error>,
)
    requires
        slot is Done,
        slot.step(&cx, &post, &cx_post, r),
    ensures
        post == slot,
        cx_post == cx,
        r == Ok::<bool, Error>(true),
{
}

/// The task of a slot is polled to its output once: the poll that yields the output puts
/// the output in the slot in place of the task.
pub proof fn lemma_slot_keeps_output<T: Task>(
    slot: MaybeDone<T>,
    cx: TaskContext,
    post: MaybeDone<T>,
    cx_post: TaskContext,
)
    requires
        slot.step(&cx, &post, &cx_post, Ok::<bool, Error>(true)),
    ensures
        post is Done,
        slot_yields(slot, post.item()),
{
}

/// A task that yields a value, or fails, at its first poll.
#[derive(Debug)]
pub struct Immediate<T> {
    pub outcome: Option<Result<T, Error>>,
}

impl<T> Task for Immediate<T> {
    type Output = T;

    open spec fn live(&self) -> bool {
        self.outcome is Some
    }

    open spec fn needs_body(&self) -> bool {
        false
    }

    open spec fn step(
        &self,
        cx: &TaskContext,
        post: &Self,
        cx_post: &TaskContext,
        r: PollTask<T>,
    ) -> bool {
        &&& post.outcome is None
        &&& *cx_post == *cx
        &&& match self.outcome {
            Some(Ok(value)) => r == Ok::<Async<T>, Error>(Async::Ready(value)),
            Some(Err(e)) => r == Err::<Async<T>, Error>(e),
            None => false,
        }
    }

    fn poll_task(&mut self, cx: &mut TaskContext) -> (r: PollTask<T>) {
        match self.outcome.take().unwrap() {
            Ok(value) => Ok(Async::Ready(value)),
            Err(e) => Err(e),
        }
    }
}

/// A task that yields `value` at its first poll.
pub fn ready<T>(value: T) -> (r: Immediate<T>)
    ensures
        r.outcome == Some(Ok::<T, Error>(value)),
{
    Immediate { outcome: Some(Ok(value)) }
}

/// A task that fails with `error` at its first poll.
pub fn failed<T>(error: Error) -> (r: Immediate<T>)
    ensures
        r.outcome == Some(Err::<T, Error>(error)),
{
    Immediate { outcome: Some(Err(error)) }
}

} // verus!
