//! The driver of one request: it applies the endpoint to the request and polls the task
//! that the endpoint hands out.

use vstd::prelude::*;
use crate::context::{ApplyContext, TaskContext};
use crate::endpoint::Endpoint;
use crate::error::{is_no_route, no_route, Error};
use crate::headers::{appended, no_fields, or_inserted, Fields};
use crate::output::{Output, Response};
use vstd::utf8::encode_utf8;
use vstd::string::StrSliceExecFns;
use crate::input::Input;
use crate::task::{Async, PollTask, Task};

verus! {

/// An endpoint as a service holds it.
#[derive(Debug)]
pub struct Lift<E>(pub E);

impl<E: Endpoint> Endpoint for Lift<E> {
    type Output = E::Output;

    type Task = E::Task;

    open spec fn wf(&self) -> bool {
        self.0.wf()
    }

    open spec fn takes_body(&self) -> bool {
        self.0.takes_body()
    }

    open spec fn matches(&self, input: &Input, pos: nat) -> bool {
        self.0.matches(input, pos)
    }

    open spec fn position_after(&self, input: &Input, pos: nat) -> nat {
        self.0.position_after(input, pos)
    }

    open spec fn produces(&self, input: &Input, pos: nat, task: &Self::Task) -> bool {
        self.0.produces(input, pos, task)
    }

    fn apply(&self, cx: &mut ApplyContext) -> (r: Option<Self::Task>) {
        self.0.apply(cx)
    }
}

/// An endpoint, ready to serve requests.
#[derive(Debug)]
pub struct App<E: Endpoint> {
    pub endpoint: Lift<E>,
}

impl<E: Endpoint> App<E> {
    /// The service of `endpoint`.
    pub fn new(endpoint: E) -> (r: App<E>)
        ensures
            r.endpoint.0 == endpoint,
    {
        App { endpoint: Lift(endpoint) }
    }

    /// A service that serves requests with this endpoint.
    pub fn new_service<'e>(&'e self) -> (r: AppService<'e, Lift<E>>)
        ensures
            *r.endpoint == self.endpoint,
    {
        AppService { endpoint: &self.endpoint }
    }
}

/// A service: it starts the driver of each request.
#[derive(Debug)]
pub struct AppService<'e, E: Endpoint> {
    pub endpoint: &'e E,
}

impl<'e, E: Endpoint> AppService<'e, E> {
    pub fn new(endpoint: &'e E) -> (r: AppService<'e, E>)
        ensures
            r.endpoint == endpoint,
    {
        AppService { endpoint }
    }

    /// The driver of the request `request`, of whose body nothing has arrived.
    pub fn dispatch(&self, request: Input) -> (r: AppFuture<'e, E>)
        ensures
            r.endpoint == self.endpoint,
            r.state matches State::Start(cx) && is_fresh(cx, request),
    {
        AppFuture { endpoint: self.endpoint, state: State::Start(TaskContext::new(request)) }
    }
}

/// Whether `cx` is the context in which the task of `request` starts: nothing of the body
/// has arrived.
pub open spec fn is_fresh(cx: TaskContext, request: Input) -> bool {
    &&& cx.request() == request
    &&& cx.received() == Seq::<u8>::empty()
    &&& !cx.ended()
}

/// How far the driver of a request has come.
#[derive(Debug)]
pub enum State<E: Endpoint> {
    /// The endpoint has not been applied yet.
    Start(TaskContext),
    /// The endpoint has taken the request, and its task has not yielded its result.
    InFlight(TaskContext, E::Task),
    /// The result has been handed out.
    Done(TaskContext),
    /// The request has been handed back.
    Gone,
}

/// The driver of one request.
pub struct AppFuture<'e, E: Endpoint> {
    pub endpoint: &'e E,
    pub state: State<E>,
}

/// Whether a poll of `task` in the context `cx` can return `r` and leave the driver in the
/// state `post`: in flight with what the poll left where it found nothing yet, and done
/// otherwise.
pub open spec fn polled<E: Endpoint>(
    task: E::Task,
    cx: TaskContext,
    post: State<E>,
    r: PollTask<E::Output>,
) -> bool {
    exists|after: E::Task, cx_post: TaskContext| #[trigger]
        task.step(&cx, &after, &cx_post, r) && post == (match r {
            Ok(Async::NotReady) => State::<E>::InFlight(cx_post, after),
            _ => State::<E>::Done(cx_post),
        })
}

/// Whether a poll of the driver of `endpoint` in the state `pre` can return `r` and leave
/// the state `post`.
///
/// The first poll applies the endpoint to the whole path. Where the endpoint declines, the
/// poll fails with the failure that says so; where it takes the request, the poll goes on to
/// poll the task. Every later poll polls the task.
pub open spec fn advances<E: Endpoint>(
    endpoint: &E,
    pre: State<E>,
    post: State<E>,
    r: PollTask<E::Output>,
) -> bool {
    match pre {
        State::Start(cx) => if endpoint.matches(&cx.request(), 0) {
            exists|task: E::Task| #[trigger]
                endpoint.produces(&cx.request(), 0, &task) && polled::<E>(task, cx, post, r)
        } else {
            post == State::<E>::Done(cx) && (r matches Err(e) && is_no_route(&e))
        },
        State::InFlight(cx, task) => polled::<E>(task, cx, post, r),
        _ => false,
    }
}

/// Whether the polls `rs` can follow one another, leading through the states `states`:
/// every poll but the last finds nothing yet.
pub open spec fn runs<E: Endpoint>(
    endpoint: &E,
    states: Seq<State<E>>,
    rs: Seq<PollTask<E::Output>>,
) -> bool {
    &&& states.len() == rs.len() + 1
    &&& forall|j: int|
        0 <= j < rs.len() ==> advances(endpoint, states[j], states[j + 1], #[trigger] rs[j])
    &&& forall|j: int| 0 <= j < rs.len() - 1 ==> (#[trigger] rs[j]) matches Ok(Async::NotReady)
}

/// Whether a run of at most `budget` polls that made the polls `rs` ends with `r`: with
/// the result of the last poll, which finds nothing yet only if the budget is spent.
pub open spec fn ran_to<O>(rs: Seq<PollTask<O>>, budget: usize, r: PollTask<O>) -> bool {
    if rs.len() == 0 {
        budget == 0 && r == Ok::<Async<O>, Error>(Async::NotReady)
    } else {
        r == rs.last() && (r matches Ok(Async::NotReady) ==> rs.len() == budget)
    }
}

impl<'e, E: Endpoint> AppFuture<'e, E> {
    /// Whether the driver can be polled: it has not handed out the result, and the handle of
    /// the body is there for the task that will ask for it.
    pub open spec fn pollable(&self) -> bool {
        &&& self.endpoint.wf()
        &&& match self.state {
            State::Start(cx) => self.endpoint.takes_body() ==> cx.has_body(),
            State::InFlight(cx, task) => task.live() && (task.needs_body() ==> cx.has_body()),
            _ => false,
        }
    }

    /// Whether a poll of the driver as `self` can return `r` and leave the state `post`.
    pub open spec fn advances(&self, post: State<E>, r: PollTask<E::Output>) -> bool {
        advances(self.endpoint, self.state, post, r)
    }

    /// Records that a chunk of the body arrived.
    pub fn feed(&mut self, chunk: &[u8])
        ensures
            final(self).endpoint == old(self).endpoint,
            old(self).pollable() ==> final(self).pollable(),
            match old(self).state {
                State::Start(cx) => final(self).state matches State::Start(fed) && fed_with(
                    cx,
                    chunk@,
                    fed,
                ),
                State::InFlight(cx, task) => final(self).state matches State::InFlight(
                    fed,
                    same,
                ) && same == task && fed_with(cx, chunk@, fed),
                _ => final(self).state == old(self).state,
            },
    {
        match &mut self.state {
            State::Start(cx) => {
                cx.feed(chunk);
            },
            State::InFlight(cx, _) => {
                cx.feed(chunk);
            },
            _ => {},
        }
    }

    /// Records that the body's end arrived.
    pub fn finish_body(&mut self)
        ensures
            final(self).endpoint == old(self).endpoint,
            old(self).pollable() ==> final(self).pollable(),
            match old(self).state {
                State::Start(cx) => final(self).state matches State::Start(fed) && finished(
                    cx,
                    fed,
                ),
                State::InFlight(cx, task) => final(self).state matches State::InFlight(
                    fed,
                    same,
                ) && same == task && finished(cx, fed),
                _ => final(self).state == old(self).state,
            },
    {
        match &mut self.state {
            State::Start(cx) => {
                cx.finish();
            },
            State::InFlight(cx, _) => {
                cx.finish();
            },
            _ => {},
        }
    }

    /// Polls the driver: applies the endpoint if that has not been done, and polls the task.
    pub fn poll_endpoint(&mut self) -> (r: PollTask<E::Output>)
        requires
            old(self).pollable(),
        ensures
            final(self).endpoint == old(self).endpoint,
            old(self).advances(final(self).state, r),
            final(self).pollable() <==> r matches Ok(Async::NotReady),
            !(r matches Ok(Async::NotReady)) ==> final(self).state is Done,
    {
        broadcast use ApplyContext::lemma_at;

        let mut state = State::Gone;
        std::mem::swap(&mut self.state, &mut state);
        let (mut cx, mut task) = match state {
            State::Start(cx) => {
                let mut ecx = ApplyContext::new(cx);
                let applied = self.endpoint.apply(&mut ecx);
                let cx = ecx.into_context();
                match applied {
                    Some(task) => (cx, task),
                    None => {
                        self.state = State::Done(cx);
                        return Err(no_route());
                    },
                }
            },
            State::InFlight(cx, task) => (cx, task),
            _ => vstd::pervasive::unreached(),
        };
        let r = task.poll_task(&mut cx);
        match r {
            Ok(Async::NotReady) => {
                self.state = State::InFlight(cx, task);
                Ok(Async::NotReady)
            },
            Ok(Async::Ready(output)) => {
                self.state = State::Done(cx);
                Ok(Async::Ready(output))
            },
            Err(e) => {
                self.state = State::Done(cx);
                Err(e)
            },
        }
    }

    /// Polls the driver until it has a result, but `budget` times at most. Where the last
    /// poll still finds nothing, so does the run.
    pub fn run(&mut self, budget: usize) -> (r: PollTask<E::Output>)
        requires
            old(self).pollable(),
        ensures
            final(self).endpoint == old(self).endpoint,
            final(self).pollable() <==> r matches Ok(Async::NotReady),
            !(r matches Ok(Async::NotReady)) ==> final(self).state is Done,
            exists|states: Seq<State<E>>, rs: Seq<PollTask<E::Output>>|
                #[trigger] runs(old(self).endpoint, states, rs) && rs.len() <= budget
                    && states[0] == old(self).state && states.last() == final(self).state
                    && ran_to(rs, budget, r),
    {
        let mut left = budget;
        let mut r: PollTask<E::Output> = Ok(Async::NotReady);
        let ghost mut states: Seq<State<E>> = seq![self.state];
        let ghost mut rs: Seq<PollTask<E::Output>> = Seq::empty();
        while left > 0
            invariant
                self.endpoint == old(self).endpoint,
                self.pollable(),
                r == Ok::<Async<E::Output>, Error>(Async::NotReady),
                left <= budget,
                rs.len() == budget - left,
                runs(self.endpoint, states, rs),
                states[0] == old(self).state,
                states.last() == self.state,
                forall|j: int| 0 <= j < rs.len() ==> (#[trigger] rs[j]) matches Ok(Async::NotReady),
            decreases left,
        {
            r = self.poll_endpoint();
            left = left - 1;
            proof {
                states = states.push(self.state);
                rs = rs.push(r);
                assert(runs(self.endpoint, states, rs));
            }
            match r {
                Ok(Async::NotReady) => {},
                _ => {
                    return r;
                },
            }
        }
        r
    }

    /// The end of the request: hands back the state in which the task was polled.
    pub fn into_context(self) -> (r: Option<TaskContext>)
        ensures
            r == match self.state {
                State::Start(cx) => Some(cx),
                State::InFlight(cx, _) => Some(cx),
                State::Done(cx) => Some(cx),
                State::Gone => None::<TaskContext>,
            },
    {
        match self.state {
            State::Start(cx) => Some(cx),
            State::InFlight(cx, _) => Some(cx),
            State::Done(cx) => Some(cx),
            State::Gone => None,
        }
    }
}

/// Whether `fed` is `cx` after `chunk` arrived.
pub open spec fn fed_with(cx: TaskContext, chunk: Seq<u8>, fed: TaskContext) -> bool {
    &&& fed.request() == cx.request()
    &&& fed.ended() == cx.ended()
    &&& fed.received() == if cx.ended() {
        cx.received()
    } else {
        cx.received() + chunk
    }
}

/// Whether `fed` is `cx` after the body's end arrived.
pub open spec fn finished(cx: TaskContext, fed: TaskContext) -> bool {
    &&& fed.request() == cx.request()
    &&& fed.received() == cx.received()
    &&& fed.ended()
}

/// The header field that names the software of the server.
pub const SERVER: &'static str = "finchers/0.13.5";

/// The header fields `fields`, with the field `server` added unless there is one.
pub open spec fn with_server(fields: Fields) -> Fields {
    or_inserted(fields, "server"@, SERVER@)
}

/// Whether `response` is the response that stands for the failure `e`: its status code,
/// and its description as plain text.
pub open spec fn is_error_response(e: &Error, response: &Response) -> bool {
    &&& response.status == e.status()
    &&& response.headers@ == appended(
        no_fields(),
        "content-type"@,
        "text/plain; charset=utf-8"@,
    )
    &&& response.body@ == encode_utf8(e.text())
}

/// The response that stands for the failure `e`.
pub fn handle_error(e: &Error) -> (r: Response)
    ensures
        is_error_response(e, &r),
{
    let mut response = Response::new(e.status_code());
    response.headers.append("content-type", "text/plain; charset=utf-8");
    response.body = e.message().as_str().as_bytes_vec();
    response
}

/// Whether `response` is what goes out for `output`: the response itself, or the one that
/// stands for the failure, with the field `server` added unless there is one.
pub open spec fn is_final(output: &Result<Response, Error>, response: &Response) -> bool {
    match output {
        Ok(made) => response.status == made.status && response.body@ == made.body@
            && response.headers@ == with_server(made.headers@),
        Err(e) => exists|made: Response|
            #[trigger] is_error_response(e, &made) && response.status == made.status
                && response.body@ == made.body@ && response.headers@ == with_server(
                made.headers@,
            ),
    }
}

/// What goes out for `output`.
pub fn finalize(output: Result<Response, Error>) -> (r: Response)
    ensures
        is_final(&output, &r),
{
    let mut response = match output {
        Ok(response) => response,
        Err(e) => {
            let made = handle_error(&e);
            made
        },
    };
    response.headers.or_insert("server", SERVER);
    response
}

/// Whether the result `p` of the endpoint, for the request `input`, can come out as `r`:
/// an output as the response it gives or the failure to give one, anything else as it is.
pub open spec fn responded<O: Output>(p: PollTask<O>, input: &Input, r: PollTask<Response>) -> bool {
    match p {
        Ok(Async::Ready(output)) => match r {
            Ok(Async::Ready(response)) => output.responds(input, &Ok::<Response, Error>(response)),
            Err(e) => output.responds(input, &Err::<Response, Error>(e)),
            _ => false,
        },
        Ok(Async::NotReady) => r == Ok::<Async<Response>, Error>(Async::NotReady),
        Err(e) => r == Err::<Async<Response>, Error>(e),
    }
}

/// A response or a failure, as the result of the poll that made it.
pub open spec fn as_poll(output: Result<Response, Error>) -> PollTask<Response> {
    match output {
        Ok(made) => Ok(Async::Ready(made)),
        Err(e) => Err(e),
    }
}

impl<'e, E: Endpoint> AppFuture<'e, E> where E::Output: Output {
    /// Whether a poll for the response can return `r` and leave the state `post`: the
    /// driver is polled, and an output is turned into its response.
    pub open spec fn outputs(&self, post: State<E>, r: PollTask<Response>) -> bool {
        exists|p: PollTask<E::Output>| #[trigger]
            advances(self.endpoint, self.state, post, p) && match post {
                State::Done(cx) => responded(p, &cx.request(), r),
                _ => r == Ok::<Async<Response>, Error>(Async::NotReady),
            }
    }

    /// Polls the driver, and turns the output into its response.
    pub fn poll_output(&mut self) -> (r: PollTask<Response>)
        requires
            old(self).pollable(),
        ensures
            final(self).endpoint == old(self).endpoint,
            old(self).outputs(final(self).state, r),
            final(self).pollable() <==> r matches Ok(Async::NotReady),
            !(r matches Ok(Async::NotReady)) ==> final(self).state is Done,
    {
        let p = self.poll_endpoint();
        match p {
            Ok(Async::Ready(output)) => {
                match &self.state {
                    State::Done(cx) => match output.respond(cx.input()) {
                        Ok(response) => Ok(Async::Ready(response)),
                        Err(e) => Err(e),
                    },
                    _ => vstd::pervasive::unreached(),
                }
            },
            Ok(Async::NotReady) => Ok(Async::NotReady),
            Err(e) => Err(e),
        }
    }

    /// Polls the driver for what goes out. A failure goes out as the response that stands
    /// for it; once there is a response, the driver has handed the request back.
    pub fn poll(&mut self) -> (r: Async<Response>)
        requires
            old(self).pollable(),
        ensures
            final(self).endpoint == old(self).endpoint,
            final(self).pollable() <==> r is NotReady,
            r is NotReady ==> old(self).outputs(
                final(self).state,
                Ok::<Async<Response>, Error>(Async::NotReady),
            ),
            r matches Async::Ready(response) ==> final(self).state is Gone && exists|
                done: State<E>,
                output: Result<Response, Error>,
            |
                #[trigger] old(self).outputs(done, as_poll(output)) && is_final(
                    &output,
                    &response,
                ),
    {
        let ghost before = *self;
        let output = match self.poll_output() {
            Ok(Async::Ready(response)) => Ok(response),
            Ok(Async::NotReady) => {
                return Async::NotReady;
            },
            Err(e) => Err(e),
        };
        let ghost done = self.state;
        self.state = State::Gone;
        let response = finalize(output);
        proof {
            assert(before.outputs(done, as_poll(output)));
        }
        Async::Ready(response)
    }
}

/// An endpoint whose output can be sent as a response: what a service asks of its endpoint.
pub trait IsAppEndpoint: Endpoint {

}

impl<E> IsAppEndpoint for E where E: Endpoint, E::Output: Output {

}

} // verus!
