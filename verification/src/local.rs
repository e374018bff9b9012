//! Requests that are made up by hand, to try an endpoint on.
//!
//! A request is built step by step and then applied to an endpoint: `apply` gives what
//! the task of the endpoint yields, `respond` the response that goes out.

use vstd::prelude::*;
use vstd::string::StrSliceExecFns;
use vstd::utf8::{decode_utf8, valid_utf8};
use crate::endpoint::Endpoint;
use crate::headers::{inserted, no_fields, or_inserted, Headers};
use crate::input::{Input, Method};
use crate::output::Output;
use crate::rt::test::{
    concat, join_chunks, uri_parts, TestInput, TestRequest, TestResponse, TestRunner,
    DEFAULT_BUDGET,
};
use crate::task::{Async, PollTask};

verus! {

/// A request in the making: a method, the text of a URI, header fields and the bytes of
/// the body.
#[derive(Debug)]
pub struct LocalRequest {
    pub method: Method,
    pub uri: String,
    pub headers: Headers,
    pub body: Vec<u8>,
}

/// A request with the method `method` for the URI `uri`, without header fields or body.
pub fn request(method: Method, uri: &str) -> (r: LocalRequest)
    ensures
        r.method == method,
        r.uri@ == uri@,
        r.headers@ == no_fields(),
        r.body@ == Seq::<u8>::empty(),
{
    LocalRequest { method, uri: uri.to_owned(), headers: Headers::new(), body: Vec::new() }
}

/// A `GET` request for the URI `uri`.
pub fn get(uri: &str) -> (r: LocalRequest)
    ensures
        r.method == Method::Get,
        r.uri@ == uri@,
        r.headers@ == no_fields(),
        r.body@ == Seq::<u8>::empty(),
{
    request(Method::Get, uri)
}

/// A `POST` request for the URI `uri`.
pub fn post(uri: &str) -> (r: LocalRequest)
    ensures
        r.method == Method::Post,
        r.uri@ == uri@,
        r.headers@ == no_fields(),
        r.body@ == Seq::<u8>::empty(),
{
    request(Method::Post, uri)
}

/// A `PUT` request for the URI `uri`.
pub fn put(uri: &str) -> (r: LocalRequest)
    ensures
        r.method == Method::Put,
        r.uri@ == uri@,
        r.headers@ == no_fields(),
        r.body@ == Seq::<u8>::empty(),
{
    request(Method::Put, uri)
}

/// A `HEAD` request for the URI `uri`.
pub fn head(uri: &str) -> (r: LocalRequest)
    ensures
        r.method == Method::Head,
        r.uri@ == uri@,
        r.headers@ == no_fields(),
        r.body@ == Seq::<u8>::empty(),
{
    request(Method::Head, uri)
}

/// A `DELETE` request for the URI `uri`.
pub fn delete(uri: &str) -> (r: LocalRequest)
    ensures
        r.method == Method::Delete,
        r.uri@ == uri@,
        r.headers@ == no_fields(),
        r.body@ == Seq::<u8>::empty(),
{
    request(Method::Delete, uri)
}

/// A `PATCH` request for the URI `uri`.
pub fn patch(uri: &str) -> (r: LocalRequest)
    ensures
        r.method == Method::Patch,
        r.uri@ == uri@,
        r.headers@ == no_fields(),
        r.body@ == Seq::<u8>::empty(),
{
    request(Method::Patch, uri)
}

/// An `OPTIONS` request for the URI `uri`.
pub fn options(uri: &str) -> (r: LocalRequest)
    ensures
        r.method == Method::Options,
        r.uri@ == uri@,
        r.headers@ == no_fields(),
        r.body@ == Seq::<u8>::empty(),
{
    request(Method::Options, uri)
}

impl LocalRequest {
    /// This request with the method `method`.
    pub fn method(self, method: Method) -> (r: LocalRequest)
        ensures
            r.method == method,
            r.uri == self.uri,
            r.headers == self.headers,
            r.body == self.body,
    {
        LocalRequest { method, uri: self.uri, headers: self.headers, body: self.body }
    }

    /// This request for the URI `uri`.
    pub fn uri(self, uri: &str) -> (r: LocalRequest)
        ensures
            r.method == self.method,
            r.uri@ == uri@,
            r.headers == self.headers,
            r.body == self.body,
    {
        LocalRequest { method: self.method, uri: uri.to_owned(), headers: self.headers, body: self.body }
    }

    /// This request with the header field `name` set to `value`: fields of that name are
    /// replaced.
    pub fn header(self, name: &str, value: &str) -> (r: LocalRequest)
        ensures
            r.method == self.method,
            r.uri == self.uri,
            r.headers@ == inserted(self.headers@, name@, value@),
            r.body == self.body,
    {
        let mut headers = self.headers;
        headers.insert(name, value);
        LocalRequest { method: self.method, uri: self.uri, headers, body: self.body }
    }

    /// This request with the body `body`.
    pub fn body(self, body: Vec<u8>) -> (r: LocalRequest)
        ensures
            r.method == self.method,
            r.uri == self.uri,
            r.headers == self.headers,
            r.body == body,
    {
        LocalRequest { method: self.method, uri: self.uri, headers: self.headers, body }
    }

    /// This request with the text `text` as body, and with the content type of plain
    /// text unless a content type is there.
    pub fn text(self, text: &str) -> (r: LocalRequest)
        ensures
            r.method == self.method,
            r.uri == self.uri,
            r.headers@ == or_inserted(
                self.headers@,
                "content-type"@,
                "text/plain; charset=utf-8"@,
            ),
            r.body@ == vstd::utf8::encode_utf8(text@),
    {
        let mut headers = self.headers;
        headers.or_insert("content-type", "text/plain; charset=utf-8");
        LocalRequest { method: self.method, uri: self.uri, headers, body: text.as_bytes_vec() }
    }

    /// Whether `made` is the request that was built: the method, the path and the query of
    /// the URI, the header fields and the body.
    pub open spec fn builds(&self, made: &TestInput) -> bool {
        &&& uri_parts(self.uri@) matches Some(parts)
        &&& made.input.spec_method() == self.method
        &&& made.input.spec_path() == parts.0
        &&& made.input.spec_query() == parts.1
        &&& made.input.spec_headers() == self.headers@
        &&& made.input.body_present()
        &&& made.body == self.body
    }

    /// Applies the request to `endpoint`, and returns what the task yields: the result of a
    /// runner for `endpoint` that adds no header fields of its own and has the usual budget
    /// of polls.
    pub fn apply<E: Endpoint>(self, endpoint: E) -> (r: PollTask<E::Output>)
        requires
            endpoint.wf(),
            self.constructible(),
        ensures
            exists|runner: TestRunner<E>, made: TestInput|
                runner.endpoint == endpoint && runner.default_headers is None && runner.budget
                    == DEFAULT_BUDGET && #[trigger] self.builds(
                    &made,
                ) && #[trigger] runner.drives(&made, r),
    {
        let runner = TestRunner::new(endpoint);
        let made = self.into_request().unwrap();
        let r = runner.apply_request(made);
        r
    }

    /// Whether the URI of the request is one.
    pub fn is_constructible(&self) -> (r: bool)
        ensures
            r == self.constructible(),
    {
        crate::rt::test::parse_uri(self.uri.as_str()).is_some()
    }

    /// Applies the request to `endpoint` if its URI is one, and returns what the task yields.
    pub fn try_apply<E: Endpoint>(self, endpoint: E) -> (r: Option<PollTask<E::Output>>)
        requires
            endpoint.wf(),
        ensures
            r is Some <==> self.constructible(),
            r matches Some(p) ==> exists|runner: TestRunner<E>, made: TestInput|
                runner.endpoint == endpoint && runner.default_headers is None && runner.budget
                    == DEFAULT_BUDGET && #[trigger] self.builds(
                    &made,
                ) && #[trigger] runner.drives(&made, p),
    {
        if self.is_constructible() {
            Some(self.apply(endpoint))
        } else {
            None
        }
    }

    /// Applies the request to `endpoint` if its URI is one, and returns the response that
    /// goes out.
    pub fn try_respond<E: Endpoint>(self, endpoint: E) -> (r: Option<Async<TestResponse>>) where
        E::Output: Output,

        requires
            endpoint.wf(),
        ensures
            r is Some <==> self.constructible(),
            r matches Some(p) ==> exists|runner: TestRunner<E>, made: TestInput|
                runner.endpoint == endpoint && runner.default_headers is None && runner.budget
                    == DEFAULT_BUDGET && #[trigger] self.builds(
                    &made,
                ) && #[trigger] runner.replies(&made, &p),
    {
        if self.is_constructible() {
            Some(self.respond(endpoint))
        } else {
            None
        }
    }

    /// Applies the request to `endpoint`, and returns the response that goes out: the
    /// response of a runner for `endpoint` that adds no header fields of its own and has the
    /// usual budget of polls.
    pub fn respond<E: Endpoint>(self, endpoint: E) -> (r: Async<TestResponse>) where
        E::Output: Output,

        requires
            endpoint.wf(),
            self.constructible(),
        ensures
            exists|runner: TestRunner<E>, made: TestInput|
                runner.endpoint == endpoint && runner.default_headers is None && runner.budget
                    == DEFAULT_BUDGET && #[trigger] self.builds(
                    &made,
                ) && #[trigger] runner.replies(&made, &r),
    {
        let runner = TestRunner::new(endpoint);
        let made = self.into_request().unwrap();
        let r = runner.response_of(made);
        r
    }
}

impl TestRequest for LocalRequest {
    open spec fn constructible(&self) -> bool {
        uri_parts(self.uri@) is Some
    }

    open spec fn makes(&self, request: &TestInput) -> bool {
        self.builds(request)
    }

    fn into_request(self) -> (r: Option<TestInput>) {
        let uri = match crate::rt::test::parse_uri(self.uri.as_str()) {
            Some(uri) => uri,
            None => {
                return None;
            },
        };
        let mut input = Input::new(self.method, uri.path.as_str());
        if let Some(query) = uri.query {
            input = input.with_query(query.as_str());
        }
        input = input.with_headers(self.headers);
        Some(TestInput { input, body: self.body })
    }
}

/// The body of a response as a client receives it.
#[derive(Debug)]
pub struct ResBody {
    pub data: Vec<Vec<u8>>,
    pub trailers: Option<Headers>,
    pub content_length: Option<u64>,
}

impl ResBody {
    /// The bytes of the body.
    pub open spec fn bytes(&self) -> Seq<u8> {
        concat(self.data@.map_values(|chunk: Vec<u8>| chunk@))
    }

    /// The chunks of the body, in the order in which they arrived.
    pub fn into_chunks(self) -> (r: Vec<Vec<u8>>)
        ensures
            r == self.data,
    {
        self.data
    }

    /// Whether the body came without a length given beforehand.
    pub fn is_chunked(&self) -> (r: bool)
        ensures
            r == (self.content_length is None),
    {
        self.content_length.is_none()
    }

    pub fn trailers(&self) -> (r: Option<&Headers>)
        ensures
            r == match self.trailers {
                Some(headers) => Some(&headers),
                None => None::<&Headers>,
            },
    {
        self.trailers.as_ref()
    }

    pub fn content_length(&self) -> (r: Option<u64>)
        ensures
            r == self.content_length,
    {
        self.content_length
    }

    /// The bytes of the body.
    pub fn to_bytes(&self) -> (r: Vec<u8>)
        ensures
            r@ == self.bytes(),
    {
        join_chunks(&self.data)
    }

    /// The body as text; what is no UTF-8 in it is replaced.
    pub fn to_utf8(&self) -> (r: String)
        ensures
            r@ == crate::rt::test::lossy_text(self.bytes()),
            valid_utf8(self.bytes()) ==> r@ == decode_utf8(self.bytes()),
    {
        let bytes = self.to_bytes();
        crate::rt::test::string_from_utf8_lossy(&bytes)
    }
}

} // verus!
