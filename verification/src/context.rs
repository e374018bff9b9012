//! The state of one request while it is matched and while its task is polled.

use vstd::prelude::*;
use crate::input::{Input, ReqBody};
use crate::task::Async;

verus! {

/// A position in the path of a request: the number of segments already consumed.
#[derive(Clone, Copy, Debug, PartialEq, Eq, Structural)]
pub struct Cursor {
    pub consumed: usize,
}

/// The state of a matching attempt: the request, and how many segments of its path have
/// been consumed. Matching reads the request and moves the cursor; it changes nothing else.
#[derive(Debug)]
pub struct ApplyContext {
    inner: TaskContext,
    pos: usize,
}

impl ApplyContext {
    #[verifier::type_invariant]
    spec fn in_path(&self) -> bool {
        self.pos <= self.inner.input.spec_segments().len()
    }

    /// The request that is matched.
    pub closed spec fn request(&self) -> Input {
        self.inner.input
    }

    /// The state in which the request's task will be polled.
    pub closed spec fn context(&self) -> TaskContext {
        self.inner
    }

    /// The number of segments already consumed.
    pub closed spec fn pos(&self) -> nat {
        self.pos as nat
    }

    /// The segments of the request's path.
    pub open spec fn segments(&self) -> Seq<Seq<char>> {
        self.request().spec_segments()
    }

    /// This context with `pos` segments consumed.
    pub closed spec fn at(self, pos: nat) -> ApplyContext {
        ApplyContext { inner: self.inner, pos: pos as usize }
    }

    /// Moving the cursor changes the position and nothing else.
    pub broadcast proof fn lemma_at(self, pos: nat)
        ensures
            (#[trigger] self.at(pos)).request() == self.request(),
            self.at(pos).context() == self.context(),
            self.context().request() == self.request(),
            pos <= usize::MAX ==> self.at(pos).pos() == pos,
    {
    }

    /// Moving the cursor to where it stands changes nothing.
    pub broadcast proof fn lemma_at_pos(self)
        ensures
            self.at(#[trigger] self.pos()) == self,
            self.pos() <= usize::MAX,
    {
    }

    /// Two moves of the cursor are one.
    pub broadcast proof fn lemma_at_at(self, first: nat, second: nat)
        ensures
            #[trigger] self.at(first).at(second) == self.at(second),
    {
    }

    /// The start of a matching attempt: no segment consumed.
    pub fn new(cx: TaskContext) -> (r: ApplyContext)
        ensures
            r.context() == cx,
            r.request() == cx.request(),
            r.pos() == 0,
    {
        ApplyContext { inner: cx, pos: 0 }
    }

    pub fn input(&self) -> (r: &Input)
        ensures
            *r == self.request(),
    {
        &self.inner.input
    }

    /// The number of segments already consumed.
    pub fn position(&self) -> (r: usize)
        ensures
            r == self.pos(),
            r <= self.segments().len(),
    {
        proof {
            use_type_invariant(self);
        }
        self.pos
    }

    /// The number of segments not yet consumed.
    pub fn remaining(&self) -> (r: usize)
        ensures
            r == self.segments().len() - self.pos(),
    {
        proof {
            use_type_invariant(self);
        }
        self.inner.input.segment_count() - self.pos
    }

    /// The next segment that is not consumed, if there is one. The cursor stays.
    pub fn peek(&self) -> (r: Option<&String>)
        ensures
            r is Some <==> self.pos() < self.segments().len(),
            r matches Some(s) ==> s@ == self.segments()[self.pos() as int],
    {
        if self.pos < self.inner.input.segment_count() {
            Some(self.inner.input.segment(self.pos))
        } else {
            None
        }
    }

    /// The segment at `i`.
    pub fn segment(&self, i: usize) -> (r: &String)
        requires
            i < self.segments().len(),
        ensures
            r@ == self.segments()[i as int],
    {
        self.inner.input.segment(i)
    }

    /// Consumes `n` segments, or all that are left where fewer are left.
    pub fn advance(&mut self, n: usize)
        ensures
            *final(self) == old(self).at(
                if old(self).pos() + n <= old(self).segments().len() {
                    (old(self).pos() + n) as nat
                } else {
                    old(self).segments().len()
                },
            ),
            final(self).request() == old(self).request(),
            final(self).pos() == if old(self).pos() + n <= old(self).segments().len() {
                (old(self).pos() + n) as nat
            } else {
                old(self).segments().len()
            },
            old(self).pos() <= final(self).pos() <= old(self).segments().len(),
    {
        proof {
            use_type_invariant(&*self);
        }
        let left = self.inner.input.segment_count() - self.pos;
        if n <= left {
            self.pos = self.pos + n;
        } else {
            self.pos = self.inner.input.segment_count();
        }
    }

    /// The cursor's position, to come back to.
    pub fn cursor(&self) -> (r: Cursor)
        ensures
            r.consumed == self.pos(),
            r.consumed <= self.segments().len(),
    {
        proof {
            use_type_invariant(self);
        }
        Cursor { consumed: self.pos }
    }

    /// Puts the cursor at a position taken earlier from this context.
    pub fn reset(&mut self, cursor: Cursor)
        requires
            cursor.consumed <= old(self).segments().len(),
        ensures
            *final(self) == old(self).at(cursor.consumed as nat),
            final(self).request() == old(self).request(),
            final(self).pos() == cursor.consumed,
    {
        self.pos = cursor.consumed;
    }

    /// The end of a matching attempt: hands back the state in which the task is polled.
    pub fn into_context(self) -> (r: TaskContext)
        ensures
            r == self.context(),
            r.request() == self.request(),
    {
        self.inner
    }
}

/// The state of a request while its task is polled: the request, and what has arrived of
/// its body.
#[derive(Debug)]
pub struct TaskContext {
    input: Input,
    received: Vec<u8>,
    ended: bool,
}

impl TaskContext {
    /// The request whose task is polled.
    pub closed spec fn request(&self) -> Input {
        self.input
    }

    /// The bytes of the body that have arrived and were not handed out.
    pub closed spec fn received(&self) -> Seq<u8> {
        self.received@
    }

    /// Whether the body has arrived whole.
    pub closed spec fn ended(&self) -> bool {
        self.ended
    }

    /// Whether the handle of the body has not been taken yet.
    pub open spec fn has_body(&self) -> bool {
        self.request().body_present()
    }

    /// The start of polling: nothing of the body has arrived.
    pub fn new(input: Input) -> (r: TaskContext)
        ensures
            r.request() == input,
            r.received() == Seq::<u8>::empty(),
            !r.ended(),
    {
        TaskContext { input, received: Vec::new(), ended: false }
    }

    pub fn input(&self) -> (r: &Input)
        ensures
            *r == self.request(),
    {
        &self.input
    }

    /// Whether the body has arrived whole.
    pub fn is_ended(&self) -> (r: bool)
        ensures
            r == self.ended(),
    {
        self.ended
    }

    /// Records that `chunk` arrived. After the body's end nothing is recorded.
    pub fn feed(&mut self, chunk: &[u8])
        ensures
            final(self).request() == old(self).request(),
            final(self).ended() == old(self).ended(),
            final(self).received() == if old(self).ended() {
                old(self).received()
            } else {
                old(self).received() + chunk@
            },
    {
        if !self.ended {
            self.received.extend_from_slice(chunk);
        }
    }

    /// Records that the body's end arrived.
    pub fn finish(&mut self)
        ensures
            final(self).request() == old(self).request(),
            final(self).received() == old(self).received(),
            final(self).ended(),
    {
        self.ended = true;
    }

    /// Takes the handle of the body.
    pub fn take_body(&mut self) -> (r: ReqBody)
        requires
            old(self).has_body(),
        ensures
            final(self).request() == old(self).request().without_body(),
            final(self).received() == old(self).received(),
            final(self).ended() == old(self).ended(),
            !final(self).has_body(),
    {
        proof {
            old(self).input.lemma_segments();
        }
        self.input.body().unwrap()
    }

    /// Hands out the body once it has arrived whole.
    pub fn poll_body(&mut self, body: &ReqBody) -> (r: Async<Vec<u8>>)
        ensures
            final(self).request() == old(self).request(),
            final(self).ended() == old(self).ended(),
            old(self).ended() ==> (r matches Async::Ready(bytes) && bytes@ == old(
                self,
            ).received()) && final(self).received() == Seq::<u8>::empty(),
            !old(self).ended() ==> r is NotReady && final(self).received() == old(
                self,
            ).received(),
    {
        if self.ended {
            let mut bytes: Vec<u8> = Vec::new();
            std::mem::swap(&mut bytes, &mut self.received);
            Async::Ready(bytes)
        } else {
            Async::NotReady
        }
    }

    /// The end of polling: hands the request back.
    pub fn into_input(self) -> (r: Input)
        ensures
            r == self.request(),
    {
        self.input
    }
}

} // verus!
