//! Endpoints that match a request by the segments of its path.
//!
//! Each endpoint makes an action, and the action does the matching. An action that
//! compares (`MatchSegmentAction`, `MatchEosAction`) consumes a segment only when it succeeds.
//! An action that decodes (`ParamAction`, `RemainsAction`) consumes what it reads, the next
//! segment or all that are left, whether or not the text decodes. An action that fails has
//! found that the request is not for its endpoint: the failure says that no route took the
//! request, and the endpoint declines.

use std::marker::PhantomData;
use vstd::prelude::*;
use crate::context::{ApplyContext, TaskContext};
use crate::decode::{join, joined, FromSegment};
use crate::endpoint::Endpoint;
use crate::endpoint::path::{after_next, end_of, next_decodes};
use crate::error::{is_no_route, no_route, Error, StatusCode};
use crate::input::Input;
use crate::task::{Async, PollTask, Task};

verus! {

/// The task of an endpoint that only matches: it yields `()` at its first poll.
#[derive(Debug)]
pub struct Matched {
    /// Whether the task has been polled.
    pub polled: bool,
}

impl Task for Matched {
    type Output = ();

    open spec fn live(&self) -> bool {
        !self.polled
    }

    open spec fn needs_body(&self) -> bool {
        false
    }

    open spec fn step(
        &self,
        cx: &TaskContext,
        post: &Self,
        cx_post: &TaskContext,
        r: PollTask<()>,
    ) -> bool {
        &&& !self.polled
        &&& post.polled
        &&& *cx_post == *cx
        &&& r == Ok::<Async<()>, Error>(Async::Ready(()))
    }

    fn poll_task(&mut self, cx: &mut TaskContext) -> (r: PollTask<()>) {
        self.polled = true;
        Ok(Async::Ready(()))
    }
}

/// The task of an endpoint that extracts a value: it yields the value at its first poll.
#[derive(Debug)]
pub struct Extracted<T>(pub Option<T>);

impl<T> Task for Extracted<T> {
    type Output = (T,);

    open spec fn live(&self) -> bool {
        self.0 is Some
    }

    open spec fn needs_body(&self) -> bool {
        false
    }

    open spec fn step(
        &self,
        cx: &TaskContext,
        post: &Self,
        cx_post: &TaskContext,
        r: PollTask<(T,)>,
    ) -> bool {
        &&& self.0 is Some
        &&& post.0 is None
        &&& *cx_post == *cx
        &&& r == Ok::<Async<(T,)>, Error>(Async::Ready((self.0->0,)))
    }

    fn poll_task(&mut self, cx: &mut TaskContext) -> (r: PollTask<(T,)>) {
        let value = self.0.take().unwrap();
        Ok(Async::Ready((value,)))
    }
}

/// Whether the next segment of `input`, when `pos` are consumed, is the text `literal`.
pub open spec fn next_is(input: &Input, pos: nat, literal: Seq<char>) -> bool {
    pos < input.spec_segments().len() && input.spec_segments()[pos as int] == literal
}

/// An endpoint that takes a request whose next segment is a certain text, and consumes
/// that segment.
///
/// The text is compared with the segment as the request holds it, that is after
/// percent-decoding, character for character.
#[derive(Debug, Clone)]
pub struct MatchSegment {
    pub literal: String,
}

/// The endpoint that takes a request whose next segment is `s`.
pub fn segment(s: &str) -> (r: MatchSegment)
    ensures
        r.literal@ == s@,
{
    MatchSegment { literal: s.to_owned() }
}

impl MatchSegment {
    /// The action that does the matching for one request.
    pub fn action(&self) -> (r: MatchSegmentAction)
        ensures
            r.literal@ == self.literal@,
    {
        MatchSegmentAction { literal: self.literal.clone() }
    }
}

impl Endpoint for MatchSegment {
    type Output = ();

    type Task = Matched;

    open spec fn wf(&self) -> bool {
        true
    }

    open spec fn takes_body(&self) -> bool {
        false
    }

    /// The endpoint takes the request if and only if the next segment is the text.
    open spec fn matches(&self, input: &Input, pos: nat) -> bool {
        next_is(input, pos, self.literal@)
    }

    /// The cursor moves by one segment if and only if the endpoint takes the request.
    open spec fn position_after(&self, input: &Input, pos: nat) -> nat {
        if next_is(input, pos, self.literal@) {
            (pos + 1) as nat
        } else {
            pos
        }
    }

    open spec fn produces(&self, input: &Input, pos: nat, task: &Self::Task) -> bool {
        !task.polled
    }

    fn apply(&self, cx: &mut ApplyContext) -> (r: Option<Self::Task>) {
        match self.action().apply(cx) {
            Ok(()) => Some(Matched { polled: false }),
            Err(_) => None,
        }
    }
}

/// The action of `MatchSegment`.
#[derive(Debug)]
pub struct MatchSegmentAction {
    pub literal: String,
}

impl MatchSegmentAction {
    /// Succeeds, and consumes the next segment, if that segment is the text. Otherwise the
    /// cursor stays, and the failure is the status code 404.
    pub fn apply(self, cx: &mut ApplyContext) -> (r: Result<(), StatusCode>)
        ensures
            r is Ok <==> next_is(&old(cx).request(), old(cx).pos(), self.literal@),
            r matches Err(status) ==> status == StatusCode::numbered(404),
            *final(cx) == old(cx).at(
                if r is Ok {
                    (old(cx).pos() + 1) as nat
                } else {
                    old(cx).pos()
                },
            ),
            final(cx).request() == old(cx).request(),
            final(cx).pos() == old(cx).pos() + if r is Ok {
                1int
            } else {
                0int
            },
            final(cx).pos() <= old(cx).segments().len(),
    {
        broadcast use ApplyContext::lemma_at_pos;

        let _ = cx.position();
        let same = match cx.peek() {
            Some(s) => *s == self.literal,
            None => false,
        };
        if same {
            cx.advance(1);
            Ok(())
        } else {
            Err(StatusCode::not_found())
        }
    }
}

/// An endpoint that takes a request of whose path no segment is left. It consumes nothing.
#[derive(Debug, Copy, Clone)]
pub struct MatchEos {
    pub _priv: (),
}

/// The endpoint that takes a request of whose path no segment is left.
pub fn eos() -> (r: MatchEos)
    ensures
        r == (MatchEos { _priv: () }),
{
    MatchEos { _priv: () }
}

impl MatchEos {
    /// The action that does the matching for one request.
    pub fn action(&self) -> (r: MatchEosAction)
        ensures
            r == (MatchEosAction { _priv: () }),
    {
        MatchEosAction { _priv: () }
    }
}

impl Endpoint for MatchEos {
    type Output = ();

    type Task = Matched;

    open spec fn wf(&self) -> bool {
        true
    }

    open spec fn takes_body(&self) -> bool {
        false
    }

    open spec fn matches(&self, input: &Input, pos: nat) -> bool {
        pos >= input.spec_segments().len()
    }

    open spec fn position_after(&self, input: &Input, pos: nat) -> nat {
        pos
    }

    open spec fn produces(&self, input: &Input, pos: nat, task: &Self::Task) -> bool {
        !task.polled
    }

    fn apply(&self, cx: &mut ApplyContext) -> (r: Option<Self::Task>) {
        broadcast use ApplyContext::lemma_at_pos;

        let _ = cx.position();
        match self.action().apply(cx) {
            Ok(()) => Some(Matched { polled: false }),
            Err(_) => None,
        }
    }
}

/// The action of `MatchEos`.
#[derive(Debug)]
pub struct MatchEosAction {
    pub _priv: (),
}

impl MatchEosAction {
    /// Succeeds if no segment is left. The cursor stays; the failure is the status code 404.
    pub fn apply(self, cx: &mut ApplyContext) -> (r: Result<(), StatusCode>)
        ensures
            r is Ok <==> old(cx).pos() >= old(cx).segments().len(),
            r matches Err(status) ==> status == StatusCode::numbered(404),
            *final(cx) == *old(cx),
    {
        match cx.peek() {
            None => Ok(()),
            Some(_) => Err(StatusCode::not_found()),
        }
    }
}

/// An endpoint that decodes the next segment into a `T` and consumes it. It declines a
/// request without a next segment or with one that does not decode; the segment that does
/// not decode is consumed all the same.
#[derive(Debug)]
pub struct Param<T> {
    pub _marker: PhantomData<T>,
}

/// The endpoint that decodes the next segment into a `T`.
pub fn param<T: FromSegment>() -> (r: Param<T>)
    ensures
        r == (Param::<T> { _marker: PhantomData }),
{
    Param { _marker: PhantomData }
}

impl<T> Clone for Param<T> {
    fn clone(&self) -> (r: Self)
        ensures
            r == *self,
    {
        Param { _marker: PhantomData }
    }
}

impl<T: FromSegment> Param<T> {
    /// The action that does the matching for one request.
    pub fn action(&self) -> (r: ParamAction<T>)
        ensures
            r == (ParamAction::<T> { _marker: PhantomData }),
    {
        ParamAction { _marker: PhantomData }
    }
}

impl<T: FromSegment> Endpoint for Param<T> {
    type Output = (T,);

    type Task = Extracted<T>;

    open spec fn wf(&self) -> bool {
        true
    }

    open spec fn takes_body(&self) -> bool {
        false
    }

    open spec fn matches(&self, input: &Input, pos: nat) -> bool {
        next_decodes::<T>(input, pos)
    }

    /// One segment is consumed if there is one, whether or not it decodes.
    open spec fn position_after(&self, input: &Input, pos: nat) -> nat {
        after_next(input, pos)
    }

    open spec fn produces(&self, input: &Input, pos: nat, task: &Self::Task) -> bool {
        task.0 matches Some(value) && T::decodes(input.spec_segments()[pos as int], &value)
    }

    fn apply(&self, cx: &mut ApplyContext) -> (r: Option<Self::Task>) {
        match self.action().apply(cx) {
            Ok(output) => Some(Extracted(Some(output.0))),
            Err(_) => None,
        }
    }
}

/// The action of `Param<T>`.
#[derive(Debug)]
pub struct ParamAction<T> {
    pub _marker: PhantomData<T>,
}

impl<T: FromSegment> ParamAction<T> {
    /// Consumes the next segment, if there is one, and succeeds with its value if it
    /// decodes. Where no segment is left or the segment does not decode, the request is not
    /// for this endpoint: the failure says that no route took it, and is no bad request.
    pub fn apply(self, cx: &mut ApplyContext) -> (r: Result<(T,), Error>)
        ensures
            r is Ok <==> next_decodes::<T>(&old(cx).request(), old(cx).pos()),
            r matches Ok(output) ==> T::decodes(
                old(cx).segments()[old(cx).pos() as int],
                &output.0,
            ),
            r matches Err(e) ==> is_no_route(&e),
            *final(cx) == old(cx).at(after_next(&old(cx).request(), old(cx).pos())),
            final(cx).request() == old(cx).request(),
            final(cx).pos() == after_next(&old(cx).request(), old(cx).pos()),
            old(cx).pos() <= final(cx).pos() <= old(cx).segments().len(),
    {
        broadcast use ApplyContext::lemma_at_pos;

        let _ = cx.position();
        let decoded = match cx.peek() {
            Some(s) => T::from_segment(s.as_str()),
            None => {
                return Err(no_route());
            },
        };
        cx.advance(1);
        match decoded {
            Ok(value) => Ok((value,)),
            Err(_) => Err(no_route()),
        }
    }
}

/// The segments of `input` that are left when `pos` are consumed, written as one path.
pub open spec fn remaining_path(input: &Input, pos: nat) -> Seq<char> {
    joined(input.spec_segments().skip(pos as int))
}

/// An endpoint that decodes what is left of the path into a `T`, and consumes it. It
/// declines a request whose remaining path does not decode; the segments are consumed all
/// the same.
#[derive(Debug)]
pub struct Remains<T> {
    pub _marker: PhantomData<T>,
}

/// The endpoint that decodes what is left of the path into a `T`.
pub fn remains<T: FromSegment>() -> (r: Remains<T>)
    ensures
        r == (Remains::<T> { _marker: PhantomData }),
{
    Remains { _marker: PhantomData }
}

impl<T> Clone for Remains<T> {
    fn clone(&self) -> (r: Self)
        ensures
            r == *self,
    {
        Remains { _marker: PhantomData }
    }
}

impl<T: FromSegment> Remains<T> {
    /// The action that does the matching for one request.
    pub fn action(&self) -> (r: RemainsAction<T>)
        ensures
            r == (RemainsAction::<T> { _marker: PhantomData }),
    {
        RemainsAction { _marker: PhantomData }
    }
}

impl<T: FromSegment> Endpoint for Remains<T> {
    type Output = (T,);

    type Task = Extracted<T>;

    open spec fn wf(&self) -> bool {
        true
    }

    open spec fn takes_body(&self) -> bool {
        false
    }

    open spec fn matches(&self, input: &Input, pos: nat) -> bool {
        T::decodable(remaining_path(input, pos))
    }

    /// No segment is left unconsumed, whether or not the remaining path decodes.
    open spec fn position_after(&self, input: &Input, pos: nat) -> nat {
        end_of(input, pos)
    }

    open spec fn produces(&self, input: &Input, pos: nat, task: &Self::Task) -> bool {
        task.0 matches Some(value) && T::decodes(remaining_path(input, pos), &value)
    }

    fn apply(&self, cx: &mut ApplyContext) -> (r: Option<Self::Task>) {
        match self.action().apply(cx) {
            Ok(output) => Some(Extracted(Some(output.0))),
            Err(_) => None,
        }
    }
}

/// The action of `Remains<T>`.
#[derive(Debug)]
pub struct RemainsAction<T> {
    pub _marker: PhantomData<T>,
}

impl<T: FromSegment> RemainsAction<T> {
    /// Consumes every segment that is left, and succeeds with the value of the remaining
    /// path if it decodes. Where it does not decode, the request is not for this endpoint:
    /// the failure says that no route took it, and is no bad request.
    pub fn apply(self, cx: &mut ApplyContext) -> (r: Result<(T,), Error>)
        ensures
            r is Ok <==> T::decodable(remaining_path(&old(cx).request(), old(cx).pos())),
            r matches Ok(output) ==> T::decodes(
                remaining_path(&old(cx).request(), old(cx).pos()),
                &output.0,
            ),
            r matches Err(e) ==> is_no_route(&e),
            *final(cx) == old(cx).at(old(cx).segments().len()),
            final(cx).request() == old(cx).request(),
            final(cx).pos() == old(cx).segments().len(),
            old(cx).pos() <= final(cx).pos(),
    {
        broadcast use ApplyContext::lemma_at_pos;

        let pos = cx.position();
        let left = cx.remaining();
        let path = join(cx.input().segments(), pos);
        let decoded = T::from_segment(path.as_str());
        cx.advance(left);
        match decoded {
            Ok(value) => Ok((value,)),
            Err(_) => Err(no_route()),
        }
    }
}

/// A `MatchSegment` takes a request if and only if the next segment that is not consumed
/// is its text, and it moves the cursor by exactly one segment if and only if it takes the
/// request; otherwise the cursor stays.
pub proof fn lemma_segment_consumes_one(m: MatchSegment, input: &Input, pos: nat)
    ensures
        m.matches(input, pos) <==> pos < input.spec_segments().len() && input.spec_segments()[pos as int]
            == m.literal@,
        m.matches(input, pos) <==> m.position_after(input, pos) == pos + 1,
        !m.matches(input, pos) <==> m.position_after(input, pos) == pos,
{
}

/// A literal and an extractor that both take the next segment consume equally many
/// segments, so that in an alternation the one that was named first wins.
pub proof fn lemma_literal_before_extractor<T: FromSegment>(
    m: MatchSegment,
    p: Param<T>,
    input: &Input,
    pos: nat,
)
    requires
        m.matches(input, pos),
        p.matches(input, pos),
    ensures
        crate::endpoint::or::left_wins(&m, &p, input, pos),
        !crate::endpoint::or::right_wins(&m, &p, input, pos),
        crate::endpoint::or::left_wins(&p, &m, input, pos),
{
}

} // verus!
