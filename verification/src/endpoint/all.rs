//! The conjunction of any number of endpoints of one type.

use vstd::prelude::*;
use crate::context::{ApplyContext, TaskContext};
use crate::endpoint::Endpoint;
use crate::error::Error;
use crate::input::Input;
use crate::task::{lemma_slot_keeps_output, slot_yields, Async, MaybeDone, PollTask, Task};

verus! {

/// The endpoint that takes a request when every member takes it, each from where the one
/// before it left the cursor. Its output holds the members' outputs in the members' order.
#[derive(Clone, Debug)]
pub struct All<E> {
    pub inner: Vec<E>,
}

/// The conjunction of the endpoints in `inner`.
pub fn all<E: Endpoint>(inner: Vec<E>) -> (r: All<E>)
    ensures
        r.inner == inner,
{
    All { inner }
}

/// Whether the first `k` members take the request one after the other, and where the
/// cursor stands after the attempt on them. The attempt ends at the first member that
/// declines.
pub open spec fn prefix_result<E: Endpoint>(inner: Seq<E>, input: &Input, pos: nat, k: nat) -> (
    bool,
    nat,
)
    decreases k,
{
    if k == 0 {
        (true, pos)
    } else {
        let (matched, p) = prefix_result(inner, input, pos, (k - 1) as nat);
        if matched {
            (inner[k - 1].matches(input, p), inner[k - 1].position_after(input, p))
        } else {
            (false, p)
        }
    }
}

impl<E: Endpoint> Endpoint for All<E> {
    type Output = Vec<E::Output>;

    type Task = AllTask<E::Task>;

    open spec fn wf(&self) -> bool {
        &&& forall|i: int| 0 <= i < self.inner.len() ==> (#[trigger] self.inner[i]).wf()
        &&& forall|i: int, j: int|
            0 <= i < self.inner.len() && 0 <= j < self.inner.len() && i != j ==> !((
            #[trigger] self.inner[i]).takes_body() && (#[trigger] self.inner[j]).takes_body())
    }

    open spec fn takes_body(&self) -> bool {
        exists|i: int| 0 <= i < self.inner.len() && (#[trigger] self.inner[i]).takes_body()
    }

    open spec fn matches(&self, input: &Input, pos: nat) -> bool {
        prefix_result(self.inner@, input, pos, self.inner.len() as nat).0
    }

    open spec fn position_after(&self, input: &Input, pos: nat) -> nat {
        prefix_result(self.inner@, input, pos, self.inner.len() as nat).1
    }

    open spec fn produces(&self, input: &Input, pos: nat, task: &Self::Task) -> bool {
        &&& !task.resolved
        &&& task.elems.len() == self.inner.len()
        &&& forall|i: int|
            0 <= i < self.inner.len() ==> (#[trigger] task.elems[i] matches MaybeDone::Pending(t)
                && self.inner[i].produces(
                input,
                prefix_result(self.inner@, input, pos, i as nat).1,
                &t,
            ))
    }

    fn apply(&self, cx: &mut ApplyContext) -> (r: Option<Self::Task>) {
        broadcast use {
            ApplyContext::lemma_at,
            ApplyContext::lemma_at_at,
            ApplyContext::lemma_at_pos,
        };

        let n = self.inner.len();
        let mut elems: Vec<MaybeDone<E::Task>> = Vec::new();
        let ghost input = old(cx).request();
        let ghost start = old(cx).pos();
        let _ = cx.position();
        let mut i: usize = 0;
        while i < n
            invariant
                self.wf(),
                n == self.inner.len(),
                i <= n,
                elems.len() == i,
                input == old(cx).request(),
                start == old(cx).pos(),
                cx.request() == input,
                *cx == old(cx).at(cx.pos()),
                start <= cx.pos() <= input.spec_segments().len(),
                prefix_result(self.inner@, &input, start, i as nat) == (true, cx.pos()),
                forall|j: int|
                    0 <= j < i ==> (#[trigger] elems[j] matches MaybeDone::Pending(t) && t.live()
                        && (t.needs_body() ==> self.inner[j].takes_body())
                        && self.inner[j].produces(
                        &input,
                        prefix_result(self.inner@, &input, start, j as nat).1,
                        &t,
                    )),
            decreases n - i,
        {
            let ghost p = cx.pos();
            let applied = self.inner[i].apply(cx);
            proof {
                old(cx).lemma_at_at(p, cx.pos());
            }
            match applied {
                Some(task) => {
                    elems.push(MaybeDone::Pending(task));
                },
                None => {
                    proof {
                        lemma_decline_stops(self.inner@, &input, start, (i + 1) as nat, n as nat);
                    }
                    return None;
                },
            }
            i = i + 1;
        }
        let task = AllTask { elems, resolved: false };
        Some(task)
    }
}

/// Once a member has declined, the attempt stays as it is however many members follow.
pub proof fn lemma_decline_stops<E: Endpoint>(
    inner: Seq<E>,
    input: &Input,
    pos: nat,
    k: nat,
    n: nat,
)
    requires
        k <= n,
        !prefix_result(inner, input, pos, k).0,
    ensures
        prefix_result(inner, input, pos, n) == prefix_result(inner, input, pos, k),
    decreases n - k,
{
    if k < n {
        lemma_decline_stops(inner, input, pos, k, (n - 1) as nat);
    }
}

/// The task of a conjunction of many: one slot for each member's task.
pub struct AllTask<T: Task> {
    pub elems: Vec<MaybeDone<T>>,
    /// Whether the task has yielded its output or failed.
    pub resolved: bool,
}

/// Whether a round can poll the first `k` slots of `pre` one after the other, leaving the
/// slots as `mid`. The slot at `j` is polled in the context `cxs[j]`, leaves the context
/// `cxs[j + 1]` and returns `ds[j]`. A slot is polled only if no slot before it failed, so
/// that only the slot polled last can have failed.
pub open spec fn round<T: Task>(
    pre: Seq<MaybeDone<T>>,
    k: nat,
    mid: Seq<MaybeDone<T>>,
    cxs: Seq<TaskContext>,
    ds: Seq<Result<bool, Error>>,
) -> bool {
    &&& k <= pre.len()
    &&& mid.len() == pre.len()
    &&& cxs.len() == k + 1
    &&& ds.len() == k
    &&& forall|j: int|
        0 <= j < k ==> pre[j].step(&cxs[j], &mid[j], &cxs[j + 1], #[trigger] ds[j])
    &&& forall|j: int| 0 <= j < k - 1 ==> (#[trigger] ds[j]) is Ok
    &&& forall|j: int| k <= j < pre.len() ==> #[trigger] mid[j] == pre[j]
}

/// Whether every poll of a round found an output in its slot.
pub open spec fn all_done(ds: Seq<Result<bool, Error>>) -> bool {
    forall|j: int| 0 <= j < ds.len() ==> #[trigger] ds[j] == Ok::<bool, Error>(true)
}

/// The outputs that the slots `slots` hold.
pub open spec fn items<T: Task>(slots: Seq<MaybeDone<T>>) -> Seq<T::Output> {
    Seq::new(slots.len(), |i: int| slots[i].item())
}

impl<T: Task> Task for AllTask<T> {
    type Output = Vec<T::Output>;

    open spec fn live(&self) -> bool {
        &&& !self.resolved
        &&& forall|i: int| 0 <= i < self.elems.len() ==> (#[trigger] self.elems[i]).usable()
        &&& forall|i: int, j: int|
            0 <= i < self.elems.len() && 0 <= j < self.elems.len() && i != j ==> !((
            #[trigger] self.elems[i]).needs_body() && (#[trigger] self.elems[j]).needs_body())
    }

    open spec fn needs_body(&self) -> bool {
        exists|i: int| 0 <= i < self.elems.len() && (#[trigger] self.elems[i]).needs_body()
    }

    /// A round polls the slots in their order. It fails with the first failure of a slot,
    /// without polling the slots behind it, and discards every slot. It yields the outputs,
    /// in the slots' order, once every slot holds one.
    open spec fn step(
        &self,
        cx: &TaskContext,
        post: &Self,
        cx_post: &TaskContext,
        r: PollTask<Self::Output>,
    ) -> bool {
        exists|k: nat, mid: Seq<MaybeDone<T>>, cxs: Seq<TaskContext>, ds: Seq<Result<bool, Error>>|
            {
                &&& #[trigger] round(self.elems@, k, mid, cxs, ds)
                &&& cxs[0] == *cx
                &&& cxs[k as int] == *cx_post
                &&& if k > 0 && ds[k - 1] is Err {
                    &&& post.resolved
                    &&& post.elems.len() == 0
                    &&& r == Err::<Async<Vec<T::Output>>, Error>(ds[k - 1]->Err_0)
                } else if all_done(ds) {
                    &&& k == self.elems.len()
                    &&& post.resolved
                    &&& post.elems.len() == 0
                    &&& r matches Ok(Async::Ready(v))
                    &&& v@ == items(mid)
                } else {
                    &&& k == self.elems.len()
                    &&& !post.resolved
                    &&& post.elems@ == mid
                    &&& r == Ok::<Async<Vec<T::Output>>, Error>(Async::NotReady)
                }
            }
    }

    fn poll_task(&mut self, cx: &mut TaskContext) -> (r: PollTask<Self::Output>) {
        let n = self.elems.len();
        let ghost pre = self.elems@;
        let ghost mut cxs: Seq<TaskContext> = seq![*cx];
        let ghost mut ds: Seq<Result<bool, Error>> = Seq::empty();
        let mut done_so_far = true;
        let mut i: usize = 0;
        while i < n
            invariant
                old(self).live(),
                old(self).needs_body() ==> old(cx).has_body(),
                pre == old(self).elems@,
                n == pre.len(),
                self.elems.len() == n,
                !self.resolved,
                i <= n,
                round(pre, i as nat, self.elems@, cxs, ds),
                cxs[0] == *old(cx),
                cxs[i as int] == *cx,
                forall|j: int| 0 <= j < i ==> (#[trigger] ds[j]) is Ok,
                done_so_far == all_done(ds),
                forall|j: int| 0 <= j < n ==> (#[trigger] self.elems[j]).usable(),
                forall|j: int|
                    0 <= j < n ==> ((#[trigger] self.elems[j]).needs_body() ==> pre[j].needs_body()),
                forall|j: int| 0 <= j < i && ds[j] == Ok::<bool, Error>(true) ==> (
                #[trigger] self.elems[j]) is Done,
                cx.has_body() != old(cx).has_body() ==> exists|j: int|
                    0 <= j < i && (#[trigger] pre[j]).needs_body() && !self.elems[j].needs_body(),
            decreases n - i,
        {
            let d = self.elems[i].poll_done(cx);
            proof {
                let old_ds = ds;
                cxs = cxs.push(*cx);
                ds = ds.push(d);
                assert(round(pre, (i + 1) as nat, self.elems@, cxs, ds));
                assert(all_done(ds) == (all_done(old_ds) && d == Ok::<bool, Error>(true))) by {
                    if all_done(ds) {
                        assert forall|j: int| 0 <= j < old_ds.len() implies #[trigger] old_ds[j]
                            == Ok::<bool, Error>(true) by {
                            assert(ds[j] == old_ds[j]);
                        }
                    }
                }
            }
            match d {
                Ok(done) => {
                    done_so_far = done_so_far && done;
                },
                Err(e) => {
                    self.elems = Vec::new();
                    self.resolved = true;
                    return Err(e);
                },
            }
            i = i + 1;
        }
        if done_so_far {
            let ghost mid = self.elems@;
            let mut outputs: Vec<T::Output> = Vec::new();
            let mut k: usize = 0;
            while k < n
                invariant
                    n == mid.len(),
                    self.elems.len() == n,
                    k <= n,
                    outputs.len() == k,
                    forall|j: int| k <= j < n ==> #[trigger] self.elems[j] == mid[j],
                    forall|j: int| 0 <= j < n ==> (#[trigger] mid[j]) is Done,
                    forall|j: int| 0 <= j < k ==> #[trigger] outputs[j] == mid[j].item(),
                decreases n - k,
            {
                let output = self.elems[k].take_item();
                outputs.push(output);
                k = k + 1;
            }
            self.elems = Vec::new();
            self.resolved = true;
            proof {
                assert(outputs@ =~= items(mid));
            }
            Ok(Async::Ready(outputs))
        } else {
            Ok(Async::NotReady)
        }
    }
}

/// The output of a conjunction of many holds the members' outputs in the members' order,
/// in whatever order the tasks yielded them: the output at `j` is what the slot at `j` came
/// to hold.
pub proof fn lemma_outputs_in_order<T: Task>(
    pre: AllTask<T>,
    cx: TaskContext,
    post: AllTask<T>,
    cx_post: TaskContext,
    outputs: Vec<T::Output>,
)
    requires
        pre.step(
            &cx,
            &post,
            &cx_post,
            Ok::<Async<Vec<T::Output>>, Error>(Async::Ready(outputs)),
        ),
    ensures
        outputs.len() == pre.elems.len(),
        forall|j: int| 0 <= j < outputs.len() ==> slot_yields(pre.elems[j], #[trigger] outputs[j]),
        post.resolved,
{
    let r = Ok::<Async<Vec<T::Output>>, Error>(Async::Ready(outputs));
    let (k, mid, cxs, ds) = choose|
        k: nat,
        mid: Seq<MaybeDone<T>>,
        cxs: Seq<TaskContext>,
        ds: Seq<Result<bool, Error>>,
    |
        {
            &&& #[trigger] round(pre.elems@, k, mid, cxs, ds)
            &&& cxs[0] == cx
            &&& cxs[k as int] == cx_post
            &&& if k > 0 && ds[k - 1] is Err {
                &&& post.resolved
                &&& post.elems.len() == 0
                &&& r == Err::<Async<Vec<T::Output>>, Error>(ds[k - 1]->Err_0)
            } else if all_done(ds) {
                &&& k == pre.elems.len()
                &&& post.resolved
                &&& post.elems.len() == 0
                &&& r matches Ok(Async::Ready(v))
                &&& v@ == items(mid)
            } else {
                &&& k == pre.elems.len()
                &&& !post.resolved
                &&& post.elems@ == mid
                &&& r == Ok::<Async<Vec<T::Output>>, Error>(Async::NotReady)
            }
        };
    assert forall|j: int| 0 <= j < outputs.len() implies slot_yields(
        pre.elems[j],
        #[trigger] outputs[j],
    ) by {
        assert(ds[j] == Ok::<bool, Error>(true));
        lemma_slot_keeps_output(pre.elems[j], cxs[j], mid[j], cxs[j + 1]);
        assert(outputs@[j] == items(mid)[j]);
    }
}

/// Where a round of a conjunction of many fails, every slot is discarded, and the failure
/// is that of the slot polled last: the slots behind it were not polled.
pub proof fn lemma_stops_at_failure<T: Task>(
    pre: AllTask<T>,
    cx: TaskContext,
    post: AllTask<T>,
    cx_post: TaskContext,
    e: Error,
)
    requires
        pre.step(&cx, &post, &cx_post, Err::<Async<Vec<T::Output>>, Error>(e)),
    ensures
        post.resolved,
        post.elems.len() == 0,
        !post.live(),
        exists|k: nat, mid: Seq<MaybeDone<T>>, cxs: Seq<TaskContext>, ds: Seq<Result<bool, Error>>|
            #[trigger] round(pre.elems@, k, mid, cxs, ds) && k > 0 && cxs[0] == cx && cxs[k as int]
                == cx_post && ds[k - 1] == Err::<bool, Error>(e),
{
}

/// In a round, a slot that holds an output is not polled again: the slot and the context
/// stay as they are where its turn comes.
pub proof fn lemma_done_slots_rest<T: Task>(
    pre: Seq<MaybeDone<T>>,
    k: nat,
    mid: Seq<MaybeDone<T>>,
    cxs: Seq<TaskContext>,
    ds: Seq<Result<bool, Error>>,
    j: int,
)
    requires
        round(pre, k, mid, cxs, ds),
        0 <= j < k,
        pre[j] is Done,
    ensures
        mid[j] == pre[j],
        cxs[j + 1] == cxs[j],
        ds[j] == Ok::<bool, Error>(true),
{
}

} // verus!
