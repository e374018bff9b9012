//! The conjunction of two endpoints.

use vstd::prelude::*;
use crate::common::Combine;
use crate::context::{ApplyContext, TaskContext};
use crate::endpoint::Endpoint;
use crate::error::Error;
use crate::input::Input;
use crate::task::{lemma_slot_keeps_output, slot_yields, Async, MaybeDone, PollTask, Task};

verus! {

/// The endpoint that takes a request when `e1` takes it and `e2` takes what `e1` left of
/// the path. Its output is the output of `e1` followed by that of `e2`.
#[derive(Copy, Clone, Debug)]
pub struct And<E1, E2> {
    pub e1: E1,
    pub e2: E2,
}

/// The conjunction of `e1` and `e2`.
pub fn new<E1, E2>(e1: E1, e2: E2) -> (r: And<E1, E2>) where
    E1: Endpoint,
    E2: Endpoint,
    E1::Output: Combine<E2::Output>,

    ensures
        r.e1 == e1,
        r.e2 == e2,
{
    And { e1, e2 }
}

impl<E1, E2> Endpoint for And<E1, E2> where
    E1: Endpoint,
    E2: Endpoint,
    E1::Output: Combine<E2::Output>,
 {
    type Output = <E1::Output as Combine<E2::Output>>::Out;

    type Task = AndTask<E1::Task, E2::Task>;

    open spec fn wf(&self) -> bool {
        &&& self.e1.wf()
        &&& self.e2.wf()
        &&& !(self.e1.takes_body() && self.e2.takes_body())
    }

    open spec fn takes_body(&self) -> bool {
        self.e1.takes_body() || self.e2.takes_body()
    }

    open spec fn matches(&self, input: &Input, pos: nat) -> bool {
        &&& self.e1.matches(input, pos)
        &&& self.e2.matches(input, self.e1.position_after(input, pos))
    }

    open spec fn position_after(&self, input: &Input, pos: nat) -> nat {
        if self.e1.matches(input, pos) {
            self.e2.position_after(input, self.e1.position_after(input, pos))
        } else {
            self.e1.position_after(input, pos)
        }
    }

    open spec fn produces(&self, input: &Input, pos: nat, task: &Self::Task) -> bool {
        &&& task.f1 matches MaybeDone::Pending(t1)
        &&& self.e1.produces(input, pos, &t1)
        &&& task.f2 matches MaybeDone::Pending(t2)
        &&& self.e2.produces(input, self.e1.position_after(input, pos), &t2)
    }

    fn apply(&self, cx: &mut ApplyContext) -> (r: Option<Self::Task>) {
        broadcast use {ApplyContext::lemma_at, ApplyContext::lemma_at_at};

        let f1 = match self.e1.apply(cx) {
            Some(task) => task,
            None => {
                return None;
            },
        };
        let f2 = match self.e2.apply(cx) {
            Some(task) => task,
            None => {
                return None;
            },
        };
        Some(AndTask { f1: MaybeDone::Pending(f1), f2: MaybeDone::Pending(f2) })
    }
}

/// The task of a conjunction: one slot for each of the two tasks.
pub struct AndTask<F1: Task, F2: Task> {
    pub f1: MaybeDone<F1>,
    pub f2: MaybeDone<F2>,
}

impl<F1: Task, F2: Task> AndTask<F1, F2> {
    /// Whether both slots were discarded.
    pub open spec fn gone(&self) -> bool {
        self.f1 is Gone && self.f2 is Gone
    }
}

/// How a round ends in which the slots were left as `s1` and `s2` and both polls
/// succeeded, `done1` and `done2` saying whether the slots hold an output: with the two
/// outputs joined, the first slot's first, or with nothing yet.
pub open spec fn round_completes<F1: Task, F2: Task>(
    s1: MaybeDone<F1>,
    done1: bool,
    s2: MaybeDone<F2>,
    done2: bool,
    post: AndTask<F1, F2>,
    r: PollTask<<F1::Output as Combine<F2::Output>>::Out>,
) -> bool where F1::Output: Combine<F2::Output> {
    if done1 && done2 {
        post.gone() && r == Ok::<Async<<F1::Output as Combine<F2::Output>>::Out>, Error>(
            Async::Ready(s1.item().spec_combine(s2.item())),
        )
    } else {
        post.f1 == s1 && post.f2 == s2 && r == Ok::<
            Async<<F1::Output as Combine<F2::Output>>::Out>,
            Error,
        >(Async::NotReady)
    }
}

/// How a round ends in which a poll failed with `e`: both slots are discarded, and the
/// round fails with `e`.
pub open spec fn round_fails<F1: Task, F2: Task>(
    e: Error,
    post: AndTask<F1, F2>,
    r: PollTask<<F1::Output as Combine<F2::Output>>::Out>,
) -> bool where F1::Output: Combine<F2::Output> {
    post.gone() && r == Err::<Async<<F1::Output as Combine<F2::Output>>::Out>, Error>(e)
}

impl<F1, F2> Task for AndTask<F1, F2> where F1: Task, F2: Task, F1::Output: Combine<F2::Output> {
    type Output = <F1::Output as Combine<F2::Output>>::Out;

    open spec fn live(&self) -> bool {
        &&& self.f1.usable()
        &&& self.f2.usable()
        &&& !(self.f1.needs_body() && self.f2.needs_body())
    }

    open spec fn needs_body(&self) -> bool {
        self.f1.needs_body() || self.f2.needs_body()
    }

    /// A round polls the first slot, then the second. Where the first poll fails, the
    /// second slot is not polled: the context is that which the first poll left.
    open spec fn step(
        &self,
        cx: &TaskContext,
        post: &Self,
        cx_post: &TaskContext,
        r: PollTask<Self::Output>,
    ) -> bool {
        exists|s1: MaybeDone<F1>, mid: TaskContext, d1: Result<bool, Error>|
            #[trigger] self.f1.step(cx, &s1, &mid, d1) && match d1 {
                Err(e) => *cx_post == mid && round_fails(e, *post, r),
                Ok(done1) => exists|s2: MaybeDone<F2>, d2: Result<bool, Error>|
                    #[trigger] self.f2.step(&mid, &s2, cx_post, d2) && match d2 {
                        Err(e) => round_fails(e, *post, r),
                        Ok(done2) => round_completes(s1, done1, s2, done2, *post, r),
                    },
            }
    }

    fn poll_task(&mut self, cx: &mut TaskContext) -> (r: PollTask<Self::Output>) {
        let d1 = self.f1.poll_done(cx);
        let done1 = match d1 {
            Ok(done) => done,
            Err(e) => {
                self.f1.erase();
                self.f2.erase();
                return Err(e);
            },
        };
        let d2 = self.f2.poll_done(cx);
        let done2 = match d2 {
            Ok(done) => done,
            Err(e) => {
                self.f1.erase();
                self.f2.erase();
                return Err(e);
            },
        };
        if done1 && done2 {
            let a = self.f1.take_item();
            let b = self.f2.take_item();
            Ok(Async::Ready(a.combine(b)))
        } else {
            Ok(Async::NotReady)
        }
    }
}

/// The output of a conjunction holds the output of the first task before that of the
/// second, whichever of the two tasks yielded first: it is joined from what the two slots
/// hold, and each slot holds what its own task yielded.
pub proof fn lemma_output_in_order<F1: Task, F2: Task>(
    pre: AndTask<F1, F2>,
    cx: TaskContext,
    post: AndTask<F1, F2>,
    cx_post: TaskContext,
    output: <F1::Output as Combine<F2::Output>>::Out,
) where F1::Output: Combine<F2::Output>
    requires
        pre.step(
            &cx,
            &post,
            &cx_post,
            Ok::<Async<<F1::Output as Combine<F2::Output>>::Out>, Error>(Async::Ready(output)),
        ),
    ensures
        exists|a: F1::Output, b: F2::Output|
            slot_yields(pre.f1, a) && slot_yields(pre.f2, b) && output == #[trigger] a.spec_combine(
                b,
            ),
        post.gone(),
{
    let r = Ok::<Async<<F1::Output as Combine<F2::Output>>::Out>, Error>(Async::Ready(output));
    let (s1, mid, d1) = choose|s1: MaybeDone<F1>, mid: TaskContext, d1: Result<bool, Error>| #[trigger]
        pre.f1.step(&cx, &s1, &mid, d1) && match d1 {
            Err(e) => cx_post == mid && round_fails(e, post, r),
            Ok(done1) => exists|s2: MaybeDone<F2>, d2: Result<bool, Error>| #[trigger]
                pre.f2.step(&mid, &s2, &cx_post, d2) && match d2 {
                    Err(e) => round_fails(e, post, r),
                    Ok(done2) => round_completes(s1, done1, s2, done2, post, r),
                },
        };
    let done1 = d1->Ok_0;
    let (s2, d2) = choose|s2: MaybeDone<F2>, d2: Result<bool, Error>| #[trigger]
        pre.f2.step(&mid, &s2, &cx_post, d2) && match d2 {
            Err(e) => round_fails(e, post, r),
            Ok(done2) => round_completes(s1, done1, s2, done2, post, r),
        };
    lemma_slot_keeps_output(pre.f1, cx, s1, mid);
    lemma_slot_keeps_output(pre.f2, mid, s2, cx_post);
    assert(output == s1.item().spec_combine(s2.item()));
}

/// A slot that holds an output stays as it is through a round that finds nothing yet, and
/// the round does to the context only what the poll of the other slot does.
pub proof fn lemma_output_is_kept<F1: Task, F2: Task>(
    pre: AndTask<F1, F2>,
    cx: TaskContext,
    post: AndTask<F1, F2>,
    cx_post: TaskContext,
) where F1::Output: Combine<F2::Output>
    requires
        pre.step(
            &cx,
            &post,
            &cx_post,
            Ok::<Async<<F1::Output as Combine<F2::Output>>::Out>, Error>(Async::NotReady),
        ),
    ensures
        pre.f1 is Done ==> post.f1 == pre.f1 && exists|d2: Result<bool, Error>| #[trigger]
            pre.f2.step(&cx, &post.f2, &cx_post, d2),
        pre.f2 is Done ==> post.f2 == pre.f2 && exists|d1: Result<bool, Error>| #[trigger]
            pre.f1.step(&cx, &post.f1, &cx_post, d1),
{
    let r = Ok::<Async<<F1::Output as Combine<F2::Output>>::Out>, Error>(Async::NotReady);
    let (s1, mid, d1) = choose|s1: MaybeDone<F1>, mid: TaskContext, d1: Result<bool, Error>| #[trigger]
        pre.f1.step(&cx, &s1, &mid, d1) && match d1 {
            Err(e) => cx_post == mid && round_fails(e, post, r),
            Ok(done1) => exists|s2: MaybeDone<F2>, d2: Result<bool, Error>| #[trigger]
                pre.f2.step(&mid, &s2, &cx_post, d2) && match d2 {
                    Err(e) => round_fails(e, post, r),
                    Ok(done2) => round_completes(s1, done1, s2, done2, post, r),
                },
        };
    let done1 = d1->Ok_0;
    let (s2, d2) = choose|s2: MaybeDone<F2>, d2: Result<bool, Error>| #[trigger]
        pre.f2.step(&mid, &s2, &cx_post, d2) && match d2 {
            Err(e) => round_fails(e, post, r),
            Ok(done2) => round_completes(s1, done1, s2, done2, post, r),
        };
    if pre.f1 is Done {
        assert(pre.f2.step(&cx, &post.f2, &cx_post, d2));
    }
    if pre.f2 is Done {
        assert(pre.f1.step(&cx, &post.f1, &cx_post, d1));
    }
}

/// Where a round fails, both slots are discarded, and the failure is that of a poll of a
/// slot. Where it is the first slot that failed, the second was not polled: the context is
/// as the poll of the first left it.
pub proof fn lemma_fails_fast<F1: Task, F2: Task>(
    pre: AndTask<F1, F2>,
    cx: TaskContext,
    post: AndTask<F1, F2>,
    cx_post: TaskContext,
    e: Error,
) where F1::Output: Combine<F2::Output>
    requires
        pre.step(
            &cx,
            &post,
            &cx_post,
            Err::<Async<<F1::Output as Combine<F2::Output>>::Out>, Error>(e),
        ),
    ensures
        post.gone(),
        !post.live(),
        (exists|s1: MaybeDone<F1>| #[trigger]
            pre.f1.step(&cx, &s1, &cx_post, Err::<bool, Error>(e))) || (exists|
            s1: MaybeDone<F1>,
            mid: TaskContext,
            done1: bool,
            s2: MaybeDone<F2>,
        |
            #[trigger] pre.f1.step(&cx, &s1, &mid, Ok::<bool, Error>(done1))
                && #[trigger] pre.f2.step(&mid, &s2, &cx_post, Err::<bool, Error>(e))),
{
    let r = Err::<Async<<F1::Output as Combine<F2::Output>>::Out>, Error>(e);
    let (s1, mid, d1) = choose|s1: MaybeDone<F1>, mid: TaskContext, d1: Result<bool, Error>| #[trigger]
        pre.f1.step(&cx, &s1, &mid, d1) && match d1 {
            Err(e) => cx_post == mid && round_fails(e, post, r),
            Ok(done1) => exists|s2: MaybeDone<F2>, d2: Result<bool, Error>| #[trigger]
                pre.f2.step(&mid, &s2, &cx_post, d2) && match d2 {
                    Err(e) => round_fails(e, post, r),
                    Ok(done2) => round_completes(s1, done1, s2, done2, post, r),
                },
        };
    match d1 {
        Err(first) => {
            assert(pre.f1.step(&cx, &s1, &cx_post, Err::<bool, Error>(e)));
        },
        Ok(done1) => {
            let (s2, d2) = choose|s2: MaybeDone<F2>, d2: Result<bool, Error>| #[trigger]
                pre.f2.step(&mid, &s2, &cx_post, d2) && match d2 {
                    Err(e) => round_fails(e, post, r),
                    Ok(done2) => round_completes(s1, done1, s2, done2, post, r),
                };
            assert(pre.f1.step(&cx, &s1, &mid, Ok::<bool, Error>(done1)) && pre.f2.step(
                &mid,
                &s2,
                &cx_post,
                Err::<bool, Error>(e),
            ));
        },
    }
}

/// A failure of the first slot is a failure of the round: where the poll of the first slot
/// can fail with `e`, the round can fail with `e` without a poll of the second slot.
pub proof fn lemma_failure_is_passed_on<F1: Task, F2: Task>(
    pre: AndTask<F1, F2>,
    cx: TaskContext,
    s1: MaybeDone<F1>,
    cx_post: TaskContext,
    e: Error,
) where F1::Output: Combine<F2::Output>
    requires
        pre.f1.step(&cx, &s1, &cx_post, Err::<bool, Error>(e)),
    ensures
        pre.step(
            &cx,
            &(AndTask { f1: MaybeDone::<F1>::Gone, f2: MaybeDone::<F2>::Gone }),
            &cx_post,
            Err::<Async<<F1::Output as Combine<F2::Output>>::Out>, Error>(e),
        ),
{
}

} // verus!
