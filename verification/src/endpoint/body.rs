//! Endpoints on the body of a request.
//!
//! `Body<T>` looks at the request, takes the handle of its body once it is polled, waits
//! for the body to arrive whole and decodes it into a `T`. What a `T` is decoded from is said
//! by its impl of `FromBody`. `BodyStream` hands out the handle itself.

use std::marker::PhantomData;
use vstd::prelude::*;
use vstd::utf8::{decode_utf8, valid_utf8};
use crate::context::{ApplyContext, TaskContext};
use crate::endpoint::Endpoint;
use crate::error::{BadRequest, Error, HttpError, StatusCode};
use crate::decode::Never;
use crate::input::{Input, ReqBody};
use crate::task::{Async, PollTask, Task};

verus! {

/// A value that the body of a request can be decoded into.
pub trait FromBody: Sized {
    type Error: HttpError;

    /// Whether a body of the request `input` is to be decoded into this type at all.
    spec fn accepts(input: &Input) -> bool;

    /// Whether the bytes `body` decode into a value.
    spec fn decodable(body: Seq<u8>, input: &Input) -> bool;

    /// Whether `value` is what the bytes `body` decode into.
    spec fn decodes(body: Seq<u8>, input: &Input, value: &Self) -> bool;

    /// Whether `error` is what decoding the bytes `body` fails with.
    spec fn rejects(body: Seq<u8>, input: &Input, error: &Self::Error) -> bool;

    /// Whether the request is one whose body this type is decoded from. An endpoint declines
    /// the others.
    fn is_match(input: &Input) -> (r: bool)
        ensures
            r == Self::accepts(input),
    ;

    /// Decodes the body, which has arrived whole.
    fn from_body(body: Vec<u8>, input: &Input) -> (r: Result<Self, Self::Error>)
        ensures
            r is Ok <==> Self::decodable(body@, input),
            r matches Ok(value) ==> Self::decodes(body@, input, &value),
            r matches Err(error) ==> Self::rejects(body@, input, &error),
    ;
}

impl FromBody for () {
    type Error = Never;

    open spec fn accepts(input: &Input) -> bool {
        true
    }

    open spec fn decodable(body: Seq<u8>, input: &Input) -> bool {
        true
    }

    open spec fn decodes(body: Seq<u8>, input: &Input, value: &()) -> bool {
        true
    }

    open spec fn rejects(body: Seq<u8>, input: &Input, error: &Never) -> bool {
        false
    }

    fn is_match(input: &Input) -> (r: bool) {
        true
    }

    fn from_body(body: Vec<u8>, input: &Input) -> (r: Result<(), Never>) {
        Ok(())
    }
}

impl FromBody for Vec<u8> {
    type Error = Never;

    open spec fn accepts(input: &Input) -> bool {
        true
    }

    open spec fn decodable(body: Seq<u8>, input: &Input) -> bool {
        true
    }

    open spec fn decodes(body: Seq<u8>, input: &Input, value: &Vec<u8>) -> bool {
        value@ == body
    }

    open spec fn rejects(body: Seq<u8>, input: &Input, error: &Never) -> bool {
        false
    }

    fn is_match(input: &Input) -> (r: bool) {
        true
    }

    fn from_body(body: Vec<u8>, input: &Input) -> (r: Result<Vec<u8>, Never>) {
        Ok(body)
    }
}

/// The bytes of a body are no text in UTF-8.
#[derive(Debug)]
pub struct InvalidUtf8;

impl HttpError for InvalidUtf8 {
    open spec fn spec_status_code(&self) -> StatusCode {
        StatusCode::numbered(400)
    }

    open spec fn spec_description(&self) -> Seq<char> {
        "invalid utf-8 sequence in the body"@
    }

    fn status_code(&self) -> (r: StatusCode) {
        StatusCode::bad_request()
    }

    fn description(&self) -> (r: String) {
        "invalid utf-8 sequence in the body".to_owned()
    }
}

/// `String::from_utf8`: the text that the bytes encode in UTF-8, if they encode one.
#[verifier::external_body]
pub(crate) fn string_from_utf8(bytes: Vec<u8>) -> (r: Option<String>)
    ensures
        r is Some <==> valid_utf8(bytes@),
        r matches Some(s) ==> s@ == decode_utf8(bytes@),
{
    String::from_utf8(bytes).ok()
}

impl FromBody for String {
    type Error = InvalidUtf8;

    open spec fn accepts(input: &Input) -> bool {
        true
    }

    open spec fn decodable(body: Seq<u8>, input: &Input) -> bool {
        valid_utf8(body)
    }

    open spec fn decodes(body: Seq<u8>, input: &Input, value: &String) -> bool {
        value@ == decode_utf8(body)
    }

    open spec fn rejects(body: Seq<u8>, input: &Input, error: &InvalidUtf8) -> bool {
        true
    }

    fn is_match(input: &Input) -> (r: bool) {
        true
    }

    fn from_body(body: Vec<u8>, input: &Input) -> (r: Result<String, InvalidUtf8>) {
        match string_from_utf8(body) {
            Some(s) => Ok(s),
            None => Err(InvalidUtf8),
        }
    }
}

impl<T: FromBody> FromBody for Option<T> {
    type Error = Never;

    open spec fn accepts(input: &Input) -> bool {
        true
    }

    open spec fn decodable(body: Seq<u8>, input: &Input) -> bool {
        true
    }

    open spec fn decodes(body: Seq<u8>, input: &Input, value: &Option<T>) -> bool {
        if T::decodable(body, input) {
            value matches Some(inner) && T::decodes(body, input, &inner)
        } else {
            value is None
        }
    }

    open spec fn rejects(body: Seq<u8>, input: &Input, error: &Never) -> bool {
        false
    }

    fn is_match(input: &Input) -> (r: bool) {
        true
    }

    fn from_body(body: Vec<u8>, input: &Input) -> (r: Result<Option<T>, Never>) {
        match T::from_body(body, input) {
            Ok(value) => Ok(Some(value)),
            Err(_) => Ok(None),
        }
    }
}

impl<T: FromBody> FromBody for Result<T, T::Error> {
    type Error = Never;

    open spec fn accepts(input: &Input) -> bool {
        true
    }

    open spec fn decodable(body: Seq<u8>, input: &Input) -> bool {
        true
    }

    open spec fn decodes(body: Seq<u8>, input: &Input, value: &Result<T, T::Error>) -> bool {
        match value {
            Ok(inner) => T::decodable(body, input) && T::decodes(body, input, inner),
            Err(error) => !T::decodable(body, input) && T::rejects(body, input, error),
        }
    }

    open spec fn rejects(body: Seq<u8>, input: &Input, error: &Never) -> bool {
        false
    }

    fn is_match(input: &Input) -> (r: bool) {
        true
    }

    fn from_body(body: Vec<u8>, input: &Input) -> (r: Result<Result<T, T::Error>, Never>) {
        Ok(T::from_body(body, input))
    }
}

/// An endpoint that decodes the body of the request into a `T`. It consumes no segment.
#[derive(Debug)]
pub struct Body<T> {
    pub _marker: PhantomData<T>,
}

/// The endpoint that decodes the body of the request into a `T`.
pub fn body<T: FromBody>() -> (r: Body<T>)
    ensures
        r == (Body::<T> { _marker: PhantomData }),
{
    Body { _marker: PhantomData }
}

impl<T> Clone for Body<T> {
    fn clone(&self) -> (r: Self)
        ensures
            r == *self,
    {
        Body { _marker: PhantomData }
    }
}

impl<T: FromBody> Endpoint for Body<T> {
    type Output = (T,);

    type Task = BodyTask<T>;

    open spec fn wf(&self) -> bool {
        true
    }

    open spec fn takes_body(&self) -> bool {
        true
    }

    open spec fn matches(&self, input: &Input, pos: nat) -> bool {
        T::accepts(input)
    }

    open spec fn position_after(&self, input: &Input, pos: nat) -> nat {
        pos
    }

    open spec fn produces(&self, input: &Input, pos: nat, task: &Self::Task) -> bool {
        *task is Init
    }

    fn apply(&self, cx: &mut ApplyContext) -> (r: Option<Self::Task>) {
        broadcast use ApplyContext::lemma_at_pos;

        let _ = cx.position();
        if T::is_match(cx.input()) {
            Some(BodyTask::Init)
        } else {
            None
        }
    }
}

/// The task of `Body<T>`.
pub enum BodyTask<T> {
    /// The handle of the body has not been taken yet.
    Init,
    /// The handle is taken, and the body has not arrived whole.
    Recv(ReqBody),
    /// The body was decoded, or did not decode.
    Done(PhantomData<T>),
}

/// Whether `e` is the bad request that stands for the failure to decode the bytes `body`
/// into a `T`.
pub open spec fn is_bad_body<T: FromBody>(body: Seq<u8>, input: &Input, e: &Error) -> bool {
    &&& e.status() == StatusCode::numbered(400)
    &&& exists|cause: T::Error|
        T::rejects(body, input, &cause) && e.text() == #[trigger] cause.spec_description()
}

impl<T: FromBody> Task for BodyTask<T> {
    type Output = (T,);

    open spec fn live(&self) -> bool {
        *self is Init || *self is Recv
    }

    open spec fn needs_body(&self) -> bool {
        *self is Init
    }

    /// The first poll takes the handle of the body. Every poll looks whether the body has
    /// arrived whole: if not, it finds nothing yet; if so, it takes the bytes that arrived
    /// and decodes them, and fails with a bad request where they do not decode.
    open spec fn step(
        &self,
        cx: &TaskContext,
        post: &Self,
        cx_post: &TaskContext,
        r: PollTask<(T,)>,
    ) -> bool {
        let request = if *self is Init {
            cx.request().without_body()
        } else {
            cx.request()
        };
        &&& self.live()
        &&& cx_post.request() == request
        &&& cx_post.ended() == cx.ended()
        &&& if cx.ended() {
            &&& *post is Done
            &&& cx_post.received() == Seq::<u8>::empty()
            &&& if T::decodable(cx.received(), &request) {
                r matches Ok(Async::Ready(output)) && T::decodes(
                    cx.received(),
                    &request,
                    &output.0,
                )
            } else {
                r matches Err(e) && is_bad_body::<T>(cx.received(), &request, &e)
            }
        } else {
            &&& *post is Recv
            &&& cx_post.received() == cx.received()
            &&& r == Ok::<Async<(T,)>, Error>(Async::NotReady)
        }
    }

    fn poll_task(&mut self, cx: &mut TaskContext) -> (r: PollTask<(T,)>) {
        if let BodyTask::Init = self {
            let handle = cx.take_body();
            *self = BodyTask::Recv(handle);
        }
        let polled = match self {
            BodyTask::Recv(handle) => cx.poll_body(handle),
            _ => vstd::pervasive::unreached(),
        };
        match polled {
            Async::NotReady => Ok(Async::NotReady),
            Async::Ready(bytes) => {
                *self = BodyTask::Done(PhantomData);
                match T::from_body(bytes, cx.input()) {
                    Ok(value) => Ok(Async::Ready((value,))),
                    Err(e) => Err(Error::from_http(&BadRequest::new(e))),
                }
            },
        }
    }
}

/// An endpoint that hands out the handle of the request's body. It takes every request and
/// consumes no segment.
#[derive(Debug, Clone, Copy)]
pub struct BodyStream {
    pub _priv: (),
}

/// The endpoint that hands out the handle of the request's body.
pub fn body_stream() -> (r: BodyStream)
    ensures
        r == (BodyStream { _priv: () }),
{
    BodyStream { _priv: () }
}

impl Endpoint for BodyStream {
    type Output = (ReqBody,);

    type Task = BodyStreamTask;

    open spec fn wf(&self) -> bool {
        true
    }

    open spec fn takes_body(&self) -> bool {
        true
    }

    open spec fn matches(&self, input: &Input, pos: nat) -> bool {
        true
    }

    open spec fn position_after(&self, input: &Input, pos: nat) -> nat {
        pos
    }

    open spec fn produces(&self, input: &Input, pos: nat, task: &Self::Task) -> bool {
        !task.taken
    }

    fn apply(&self, cx: &mut ApplyContext) -> (r: Option<Self::Task>) {
        broadcast use ApplyContext::lemma_at_pos;

        let _ = cx.position();
        Some(BodyStreamTask { taken: false })
    }
}

/// The task of `BodyStream`.
#[derive(Debug)]
pub struct BodyStreamTask {
    /// Whether the handle has been handed out.
    pub taken: bool,
}

impl Task for BodyStreamTask {
    type Output = (ReqBody,);

    open spec fn live(&self) -> bool {
        !self.taken
    }

    open spec fn needs_body(&self) -> bool {
        !self.taken
    }

    /// The first poll takes the handle of the body and yields it.
    open spec fn step(
        &self,
        cx: &TaskContext,
        post: &Self,
        cx_post: &TaskContext,
        r: PollTask<(ReqBody,)>,
    ) -> bool {
        &&& !self.taken
        &&& post.taken
        &&& cx_post.request() == cx.request().without_body()
        &&& cx_post.received() == cx.received()
        &&& cx_post.ended() == cx.ended()
        &&& r matches Ok(Async::Ready(_))
    }

    fn poll_task(&mut self, cx: &mut TaskContext) -> (r: PollTask<(ReqBody,)>) {
        let handle = cx.take_body();
        self.taken = true;
        Ok(Async::Ready((handle,)))
    }
}

} // verus!
