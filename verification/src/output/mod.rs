//! What a task yields, as a response.

pub mod redirect;

use vstd::prelude::*;
use vstd::utf8::encode_utf8;
use vstd::string::StrSliceExecFns;
use crate::endpoint::or::Either;
use crate::error::{is_no_route, Error, HttpError, NoRoute, StatusCode};
use crate::headers::{appended, no_fields, Headers};
use crate::input::Input;

verus! {

/// A response: a status code, header fields and the bytes of the body.
#[derive(Debug)]
pub struct Response {
    pub status: StatusCode,
    pub headers: Headers,
    pub body: Vec<u8>,
}

impl Response {
    /// A response with the given status code, without header fields or body.
    pub fn new(status: StatusCode) -> (r: Response)
        ensures
            r.status == status,
            r.headers@ == no_fields(),
            r.body@ == Seq::<u8>::empty(),
    {
        Response { status, headers: Headers::new(), body: Vec::new() }
    }
}

/// Whether `response` is the response for the text `text`: the status code 200, the
/// content type of plain text in UTF-8, and the text's bytes as body.
pub open spec fn is_text_response(text: Seq<char>, response: &Response) -> bool {
    &&& response.status == StatusCode::numbered(200)
    &&& response.headers@ == appended(
        no_fields(),
        "content-type"@,
        "text/plain; charset=utf-8"@,
    )
    &&& response.body@ == encode_utf8(text)
}

/// The response for the text `text`.
pub fn text_response(text: &str) -> (r: Response)
    ensures
        is_text_response(text@, &r),
{
    let mut headers = Headers::new();
    headers.append("content-type", "text/plain; charset=utf-8");
    Response { status: StatusCode::ok(), headers, body: text.as_bytes_vec() }
}

/// A value that can be sent as a response.
pub trait Output: Sized {
    /// Whether `r` is what the value gives for the request `input`.
    spec fn responds(&self, input: &Input, r: &Result<Response, Error>) -> bool;

    /// The response for this value, or the failure to make one.
    fn respond(self, input: &Input) -> (r: Result<Response, Error>)
        ensures
            self.responds(input, &r),
    ;
}

impl Output for () {
    /// No content.
    open spec fn responds(&self, input: &Input, r: &Result<Response, Error>) -> bool {
        &&& r matches Ok(response)
        &&& response.status == StatusCode::numbered(204)
        &&& response.headers@ == no_fields()
        &&& response.body@ == Seq::<u8>::empty()
    }

    fn respond(self, input: &Input) -> (r: Result<Response, Error>) {
        Ok(Response::new(StatusCode::no_content()))
    }
}

impl Output for String {
    open spec fn responds(&self, input: &Input, r: &Result<Response, Error>) -> bool {
        r matches Ok(response) && is_text_response(self@, &response)
    }

    fn respond(self, input: &Input) -> (r: Result<Response, Error>) {
        Ok(text_response(self.as_str()))
    }
}

impl Output for &'static str {
    open spec fn responds(&self, input: &Input, r: &Result<Response, Error>) -> bool {
        r matches Ok(response) && is_text_response(self@, &response)
    }

    fn respond(self, input: &Input) -> (r: Result<Response, Error>) {
        Ok(text_response(self))
    }
}

impl Output for Response {
    open spec fn responds(&self, input: &Input, r: &Result<Response, Error>) -> bool {
        *r == Ok::<Response, Error>(*self)
    }

    fn respond(self, input: &Input) -> (r: Result<Response, Error>) {
        Ok(self)
    }
}

impl<T: Output> Output for (T,) {
    open spec fn responds(&self, input: &Input, r: &Result<Response, Error>) -> bool {
        self.0.responds(input, r)
    }

    fn respond(self, input: &Input) -> (r: Result<Response, Error>) {
        self.0.respond(input)
    }
}

impl<T: Output> Output for Option<T> {
    /// A value that is missing is a route that is missing.
    open spec fn responds(&self, input: &Input, r: &Result<Response, Error>) -> bool {
        match self {
            Some(value) => value.responds(input, r),
            None => r matches Err(e) && is_no_route(&e),
        }
    }

    fn respond(self, input: &Input) -> (r: Result<Response, Error>) {
        match self {
            Some(value) => value.respond(input),
            None => Err(Error::from_http(&NoRoute)),
        }
    }
}

impl<L: Output, R: Output> Output for Either<L, R> {
    /// The response of the side that the value comes from.
    open spec fn responds(&self, input: &Input, r: &Result<Response, Error>) -> bool {
        match self {
            Either::Left(value) => value.responds(input, r),
            Either::Right(value) => value.responds(input, r),
        }
    }

    fn respond(self, input: &Input) -> (r: Result<Response, Error>) {
        match self {
            Either::Left(value) => value.respond(input),
            Either::Right(value) => value.respond(input),
        }
    }
}

impl<T: Output, E: HttpError> Output for Result<T, E> {
    open spec fn responds(&self, input: &Input, r: &Result<Response, Error>) -> bool {
        match self {
            Ok(value) => value.responds(input, r),
            Err(cause) => r matches Err(e) && e.status() == cause.spec_status_code() && e.text()
                == cause.spec_description(),
        }
    }

    fn respond(self, input: &Input) -> (r: Result<Response, Error>) {
        match self {
            Ok(value) => value.respond(input),
            Err(cause) => Err(Error::from_http(&cause)),
        }
    }
}

} // verus!
