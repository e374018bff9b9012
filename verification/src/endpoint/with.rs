//! The endpoint that asks two endpoints and keeps the task of the second.

use vstd::prelude::*;
use crate::context::ApplyContext;
use crate::endpoint::Endpoint;
use crate::input::Input;

verus! {

/// The endpoint that takes a request when `e1` takes it and `e2` takes what `e1` left of
/// the path. Its task is that of `e2`: what `e1` hands out is dropped unpolled.
#[derive(Debug, Copy, Clone)]
pub struct With<E1, E2> {
    pub e1: E1,
    pub e2: E2,
}

/// The endpoint `e2` behind the guard `e1`.
pub fn with<E1: Endpoint, E2: Endpoint>(e1: E1, e2: E2) -> (r: With<E1, E2>)
    ensures
        r.e1 == e1,
        r.e2 == e2,
{
    With { e1, e2 }
}

impl<E1: Endpoint, E2: Endpoint> Endpoint for With<E1, E2> {
    type Output = E2::Output;

    type Task = E2::Task;

    open spec fn wf(&self) -> bool {
        self.e1.wf() && self.e2.wf()
    }

    open spec fn takes_body(&self) -> bool {
        self.e2.takes_body()
    }

    open spec fn matches(&self, input: &Input, pos: nat) -> bool {
        &&& self.e1.matches(input, pos)
        &&& self.e2.matches(input, self.e1.position_after(input, pos))
    }

    open spec fn position_after(&self, input: &Input, pos: nat) -> nat {
        if self.e1.matches(input, pos) {
            self.e2.position_after(input, self.e1.position_after(input, pos))
        } else {
            self.e1.position_after(input, pos)
        }
    }

    open spec fn produces(&self, input: &Input, pos: nat, task: &Self::Task) -> bool {
        self.e2.produces(input, self.e1.position_after(input, pos), task)
    }

    fn apply(&self, cx: &mut ApplyContext) -> (r: Option<Self::Task>) {
        broadcast use {ApplyContext::lemma_at, ApplyContext::lemma_at_at};

        match self.e1.apply(cx) {
            Some(_) => {},
            None => {
                return None;
            },
        }
        self.e2.apply(cx)
    }
}

} // verus!
