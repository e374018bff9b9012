//! Trying endpoints on requests that are made up.
//!
//! A runner holds an endpoint. It completes a request with the header fields that a client
//! would send, starts the driver on it with the whole body arrived, and polls the driver
//! until the result is there or the budget of polls is spent.

use vstd::prelude::*;
use vstd::utf8::{decode_utf8, valid_utf8};
use crate::endpoint::body::string_from_utf8;
use crate::endpoint::Endpoint;
use crate::error::{Error, StatusCode};
use crate::headers::{
    all_appended, appended, lists, no_fields, or_inserted, pairs, Field, Fields, Headers,
};
use crate::input::{Input, Method};
use crate::output::{Output, Response};
use crate::rt::app::{
    finalize, is_final, ran_to, responded, runs, AppFuture, AppService, State, SERVER,
};
use crate::task::{Async, PollTask};
use crate::decode::{number_within, FromSegment};
use crate::text::{decimal, decimal_text, find, find_last, first_index, last_index};

verus! {

/// The parts of a URI that a request is made of.
#[derive(Debug)]
pub struct UriParts {
    pub path: String,
    pub query: Option<String>,
    pub authority: Option<String>,
}

/// What the text `s` holds as a URI, if it is one: its path, its query and its authority.
pub uninterp spec fn uri_parts(s: Seq<char>) -> Option<
    (Seq<char>, Option<Seq<char>>, Option<Seq<char>>),
>;

/// The text of an optional text.
pub open spec fn text_of(s: Option<String>) -> Option<Seq<char>> {
    match s {
        Some(s) => Some(s@),
        None => None,
    }
}

impl UriParts {
    /// The parts as texts.
    pub open spec fn texts(&self) -> (Seq<char>, Option<Seq<char>>, Option<Seq<char>>) {
        (self.path@, text_of(self.query), text_of(self.authority))
    }
}

/// `str::parse` into `http::Uri`, and the accessors `path`, `query` and `authority_part`
/// of the URI, with `Authority::as_str`: the parts of the text as a URI, or nothing where
/// the text is none. The authority is handed out as it is written; it is not taken apart
/// here.
#[verifier::external_body]
pub(crate) fn parse_uri(s: &str) -> (r: Option<UriParts>)
    ensures
        r is Some <==> uri_parts(s@) is Some,
        r matches Some(parts) ==> uri_parts(s@) == Some(parts.texts()),
{
    match s.parse::<http::Uri>() {
        Ok(uri) => Some(
            UriParts {
                path: uri.path().to_owned(),
                query: uri.query().map(|q| q.to_owned()),
                authority: uri.authority_part().map(|a| a.as_str().to_owned()),
            },
        ),
        Err(_) => None,
    }
}

/// What stands behind the last `@` of the authority `authority`: the host and the port,
/// without the name and the password of a user.
pub open spec fn host_and_port(authority: Seq<char>) -> Seq<char> {
    authority.subrange(last_index(authority, '@') + 1, authority.len() as int)
}

/// The host that the authority `authority` names. An address in brackets reaches to the
/// closing bracket, or to the end where none closes; any other host ends before the first
/// colon.
pub open spec fn authority_host(authority: Seq<char>) -> Seq<char> {
    let rest = host_and_port(authority);
    if rest.len() > 0 && rest[0] == '[' {
        let close = first_index(rest, ']');
        if close < rest.len() {
            rest.subrange(0, close + 1)
        } else {
            rest
        }
    } else {
        rest.subrange(0, first_index(rest, ':'))
    }
}

/// The port that the authority `authority` names: the number behind its last colon, if a
/// number of 16 bits stands there.
pub open spec fn authority_port(authority: Seq<char>) -> Option<int> {
    let colon = last_index(authority, ':');
    if colon >= 0 {
        number_within(
            authority.subrange(colon + 1, authority.len() as int),
            false,
            0,
            u16::MAX as int,
        )
    } else {
        None
    }
}

/// The value of the header field `host` for the authority `authority`: its host, and its
/// port in decimal digits behind a colon where it names one.
pub open spec fn host_text(authority: Seq<char>) -> Seq<char> {
    match authority_port(authority) {
        Some(port) => authority_host(authority) + seq![':'] + decimal_text(port as nat),
        None => authority_host(authority),
    }
}

/// The host that the authority `authority` names.
pub fn host_of(authority: &str) -> (r: String)
    ensures
        r@ == authority_host(authority@),
{
    let n = authority.unicode_len();
    let start: usize = match find_last(authority, '@') {
        Some(at) => at + 1,
        None => 0,
    };
    let rest = authority.substring_char(start, n);
    let m = rest.unicode_len();
    proof {
        assert(rest@.subrange(0, m as int) == rest@);
    }
    if m > 0 && rest.get_char(0) == '[' {
        let close = find(rest, ']', 0);
        if close < m {
            rest.substring_char(0, close + 1).to_owned()
        } else {
            rest.to_owned()
        }
    } else {
        let colon = find(rest, ':', 0);
        rest.substring_char(0, colon).to_owned()
    }
}

/// The port that the authority `authority` names.
pub fn port_of(authority: &str) -> (r: Option<u16>)
    ensures
        r is Some <==> authority_port(authority@) is Some,
        r matches Some(port) ==> authority_port(authority@) == Some(port as int),
{
    let n = authority.unicode_len();
    match find_last(authority, ':') {
        Some(colon) => match u16::from_segment(authority.substring_char(colon + 1, n)) {
            Ok(port) => Some(port),
            Err(_) => None,
        },
        None => None,
    }
}

/// The value of the header field `host` for the authority `authority`.
pub fn host_field(authority: &str) -> (r: String)
    ensures
        r@ == host_text(authority@),
{
    let mut value = host_of(authority);
    if let Some(port) = port_of(authority) {
        value.append(":");
        value.append(decimal(port as u64).as_str());
        proof {
            reveal_strlit(":");
            assert(":"@ =~= seq![':']);
        }
    }
    value
}

/// A request that is made up: the request, and the bytes of its body.
#[derive(Debug)]
pub struct TestInput {
    pub input: Input,
    pub body: Vec<u8>,
}

/// Whether `request` is the `GET` request for the URI of the parts `parts`: it has the
/// path and the query of the URI, the header field `host` if the URI has an authority, and
/// an empty body.
pub open spec fn is_get(
    parts: (Seq<char>, Option<Seq<char>>, Option<Seq<char>>),
    request: &TestInput,
) -> bool {
    &&& request.input.spec_method() == Method::Get
    &&& request.input.spec_path() == parts.0
    &&& request.input.spec_query() == parts.1
    &&& request.input.spec_headers() == match parts.2 {
        Some(authority) => appended(no_fields(), "host"@, host_text(authority)),
        None => no_fields(),
    }
    &&& request.input.body_present()
    &&& request.body@ == Seq::<u8>::empty()
}

/// The `GET` request for the URI of the parts `parts`.
pub fn get_request(parts: UriParts) -> (r: TestInput)
    ensures
        is_get(parts.texts(), &r),
{
    let mut input = Input::new(Method::Get, parts.path.as_str());
    if let Some(query) = parts.query {
        input = input.with_query(query.as_str());
    }
    if let Some(authority) = parts.authority {
        let value = host_field(authority.as_str());
        input = input.with_header("host", value.as_str());
    }
    TestInput { input, body: Vec::new() }
}

/// A value that stands for a request: the text of a URI, or a request.
pub trait TestRequest: Sized {
    /// Whether the value stands for a request.
    spec fn constructible(&self) -> bool;

    /// Whether `request` is the request that the value stands for.
    spec fn makes(&self, request: &TestInput) -> bool;

    /// The request that the value stands for, if it stands for one.
    fn into_request(self) -> (r: Option<TestInput>)
        ensures
            r is Some <==> self.constructible(),
            r matches Some(request) ==> self.makes(&request) && request.input.body_present(),
    ;
}

impl<'a> TestRequest for &'a str {
    open spec fn constructible(&self) -> bool {
        uri_parts(self@) is Some
    }

    open spec fn makes(&self, request: &TestInput) -> bool {
        uri_parts(self@) matches Some(parts) && is_get(parts, request)
    }

    fn into_request(self) -> (r: Option<TestInput>) {
        match parse_uri(self) {
            Some(parts) => Some(get_request(parts)),
            None => None,
        }
    }
}

impl TestRequest for String {
    open spec fn constructible(&self) -> bool {
        uri_parts(self@) is Some
    }

    open spec fn makes(&self, request: &TestInput) -> bool {
        uri_parts(self@) matches Some(parts) && is_get(parts, request)
    }

    fn into_request(self) -> (r: Option<TestInput>) {
        match parse_uri(self.as_str()) {
            Some(parts) => Some(get_request(parts)),
            None => None,
        }
    }
}

impl TestRequest for TestInput {
    open spec fn constructible(&self) -> bool {
        self.input.body_present()
    }

    open spec fn makes(&self, request: &TestInput) -> bool {
        *request == *self
    }

    fn into_request(self) -> (r: Option<TestInput>) {
        if self.input.has_body() {
            Some(self)
        } else {
            None
        }
    }
}

/// Adds a header field unless a field of that name is there.
pub fn or_insert(headers: &mut Headers, name: &str, value: &str)
    ensures
        final(headers)@ == or_inserted(old(headers)@, name@, value@),
{
    headers.or_insert(name, value);
}

/// The header fields of a request as the runner sends it: the fields `fields` of the
/// request, the fields `defaults` of the runner, and the fields that give the length of the
/// body, the host and the client, each unless a field of that name is there.
pub open spec fn completed(fields: Fields, defaults: Seq<Field>, length: nat) -> Fields {
    or_inserted(
        or_inserted(
            or_inserted(
                all_appended(fields, defaults),
                "content-length"@,
                decimal_text(length),
            ),
            "host"@,
            "localhost"@,
        ),
        "user-agent"@,
        SERVER@,
    )
}

/// How many polls a runner makes at most, unless it is told otherwise.
pub const DEFAULT_BUDGET: usize = 1024;

/// A runner of made-up requests against one endpoint.
#[derive(Debug)]
pub struct TestRunner<E> {
    pub endpoint: E,
    pub default_headers: Option<Headers>,
    /// How many polls the runner makes at most for one request.
    pub budget: usize,
}

/// A runner for `endpoint`.
pub fn runner<E: Endpoint>(endpoint: E) -> (r: TestRunner<E>)
    ensures
        r.endpoint == endpoint,
        r.default_headers is None,
        r.budget == DEFAULT_BUDGET,
{
    TestRunner::new(endpoint)
}

/// Whether `state` is the start of the driver for the request `request` with its whole
/// body arrived.
pub open spec fn starts_with<E: Endpoint>(request: &TestInput, state: State<E>) -> bool {
    &&& state matches State::Start(cx)
    &&& cx.request() == request.input
    &&& cx.received() == request.body@
    &&& cx.ended()
}

impl<E: Endpoint> TestRunner<E> {
    /// A runner for `endpoint`, without header fields of its own.
    pub fn new(endpoint: E) -> (r: TestRunner<E>)
        ensures
            r.endpoint == endpoint,
            r.default_headers is None,
            r.budget == DEFAULT_BUDGET,
    {
        TestRunner { endpoint, default_headers: None, budget: DEFAULT_BUDGET }
    }

    /// The header fields that the runner adds to every request.
    pub open spec fn defaults(&self) -> Fields {
        match self.default_headers {
            Some(headers) => headers@,
            None => no_fields(),
        }
    }

    /// The header fields that the runner adds to every request, to add to them.
    pub fn default_headers(&mut self) -> (r: &mut Headers)
        ensures
            r@ == old(self).defaults(),
            final(self).endpoint == old(self).endpoint,
            final(self).budget == old(self).budget,
            final(self).default_headers == Some(*final(r)),
    {
        if self.default_headers.is_none() {
            self.default_headers = Some(Headers::new());
        }
        match &mut self.default_headers {
            Some(headers) => headers,
            None => vstd::pervasive::unreached(),
        }
    }

    /// Whether `prepared` is `request` as the runner sends it: the fields of the runner are
    /// added in the order of some list of them.
    pub open spec fn prepares(&self, request: &TestInput, prepared: &TestInput) -> bool {
        &&& prepared.body == request.body
        &&& prepared.input.spec_method() == request.input.spec_method()
        &&& prepared.input.spec_path() == request.input.spec_path()
        &&& prepared.input.spec_query() == request.input.spec_query()
        &&& prepared.input.body_present() == request.input.body_present()
        &&& exists|list: Seq<(String, String)>| #[trigger]
            lists(list, self.defaults()) && prepared.input.spec_headers() == completed(
                request.input.spec_headers(),
                pairs(list),
                request.body@.len(),
            )
    }

    /// Completes the header fields of a request.
    pub fn prepare_request(&self, request: TestInput) -> (r: TestInput)
        ensures
            self.prepares(&request, &r),
    {
        let TestInput { input, body } = request;
        let mut input = input;
        let ghost fields = input.spec_headers();
        let list: Vec<(String, String)> = match &self.default_headers {
            Some(defaults) => defaults.fields(),
            None => Vec::new(),
        };
        let n = list.len();
        let mut i: usize = 0;
        while i < n
            invariant
                n == list@.len(),
                i <= n,
                input.spec_method() == request.input.spec_method(),
                input.spec_path() == request.input.spec_path(),
                input.spec_query() == request.input.spec_query(),
                input.body_present() == request.input.body_present(),
                input.spec_headers() == all_appended(fields, pairs(list@).take(i as int)),
            decreases n - i,
        {
            proof {
                let next = pairs(list@).take(i + 1);
                assert(next.drop_last() == pairs(list@).take(i as int));
                assert(next.last() == (list@[i as int].0@, list@[i as int].1@));
            }
            input = input.with_header(list[i].0.as_str(), list[i].1.as_str());
            i = i + 1;
        }
        proof {
            assert(pairs(list@).take(n as int) == pairs(list@));
            assert(lists(list@, self.defaults()));
        }
        let length = decimal(body.len() as u64);
        if !input.headers().contains_key("content-length") {
            input = input.with_header("content-length", length.as_str());
        }
        if !input.headers().contains_key("host") {
            input = input.with_header("host", "localhost");
        }
        if !input.headers().contains_key("user-agent") {
            input = input.with_header("user-agent", SERVER);
        }
        TestInput { input, body }
    }

    /// Whether running the prepared form of `request` can end with `r` and leave the driver
    /// in the state `post`: the driver starts on the prepared request with its whole body
    /// arrived, and makes at most `budget` polls.
    pub open spec fn drives_to(
        &self,
        request: &TestInput,
        post: State<E>,
        r: PollTask<E::Output>,
    ) -> bool {
        exists|prepared: TestInput, states: Seq<State<E>>, rs: Seq<PollTask<E::Output>>|
            self.prepares(request, &prepared) && #[trigger] runs(&self.endpoint, states, rs)
                && #[trigger] starts_with(&prepared, states[0]) && states.last() == post
                && rs.len() <= self.budget && ran_to(rs, self.budget, r)
    }

    /// Whether running the prepared form of `request` can end with `r`.
    pub open spec fn drives(&self, request: &TestInput, r: PollTask<E::Output>) -> bool {
        exists|post: State<E>| #[trigger] self.drives_to(request, post, r)
    }

    /// Starts the driver on the prepared form of `request`, with its whole body arrived.
    pub fn start<'e>(&'e self, request: TestInput) -> (r: AppFuture<'e, E>)
        requires
            self.endpoint.wf(),
            request.input.body_present(),
        ensures
            r.endpoint == &self.endpoint,
            r.pollable(),
            exists|prepared: TestInput| #[trigger]
                self.prepares(&request, &prepared) && starts_with(&prepared, r.state),
    {
        let prepared = self.prepare_request(request);
        let TestInput { input, body } = prepared;
        let service = AppService::new(&self.endpoint);
        let mut future = service.dispatch(input);
        future.feed(body.as_slice());
        future.finish_body();
        future
    }

    /// Runs the endpoint on a request, and returns what its task yields, the failure of
    /// the task, or the failure that says that no route took the request.
    pub fn apply_request(&self, request: TestInput) -> (r: PollTask<E::Output>)
        requires
            self.endpoint.wf(),
            request.input.body_present(),
        ensures
            self.drives(&request, r),
    {
        let mut future = self.start(request);
        let r = future.run(self.budget);
        proof {
            assert(self.drives_to(&request, future.state, r));
        }
        r
    }

    /// Runs the endpoint on a request.
    pub fn apply_raw<R: TestRequest>(&self, request: R) -> (r: PollTask<E::Output>)
        requires
            self.endpoint.wf(),
            request.constructible(),
        ensures
            exists|made: TestInput| #[trigger] request.makes(&made) && self.drives(&made, r),
    {
        let made = request.into_request().unwrap();
        let r = self.apply_request(made);
        r
    }

    /// Runs the endpoint on a request, if `request` stands for one.
    pub fn try_apply_raw<R: TestRequest>(&self, request: R) -> (r: Option<PollTask<E::Output>>)
        requires
            self.endpoint.wf(),
        ensures
            r is Some <==> request.constructible(),
            r matches Some(p) ==> exists|made: TestInput| #[trigger]
                request.makes(&made) && self.drives(&made, p),
    {
        match request.into_request() {
            Some(made) => Some(self.apply_raw(made)),
            None => None,
        }
    }

    /// Whether getting the response for the prepared form of `request` can end with `r`:
    /// the endpoint is run, and what its task yields is turned into its response.
    pub open spec fn answers(&self, request: &TestInput, r: PollTask<Response>) -> bool where
        E::Output: Output,
     {
        exists|post: State<E>, p: PollTask<E::Output>| #[trigger]
            self.drives_to(request, post, p) && match post {
                State::Done(cx) => responded(p, &cx.request(), r),
                _ => r == Ok::<Async<Response>, Error>(Async::NotReady),
            }
    }

    /// Runs the endpoint on a request, and turns what its task yields into its response.
    pub fn output_of(&self, request: TestInput) -> (r: PollTask<Response>) where E::Output: Output
        requires
            self.endpoint.wf(),
            request.input.body_present(),
        ensures
            self.answers(&request, r),
    {
        let mut future = self.start(request);
        let p = future.run(self.budget);
        proof {
            assert(self.drives_to(&request, future.state, p));
        }
        match p {
            Ok(Async::Ready(output)) => match &future.state {
                State::Done(cx) => match output.respond(cx.input()) {
                    Ok(response) => Ok(Async::Ready(response)),
                    Err(e) => Err(e),
                },
                _ => vstd::pervasive::unreached(),
            },
            Ok(Async::NotReady) => Ok(Async::NotReady),
            Err(e) => Err(e),
        }
    }

    /// Runs the endpoint on a request, and turns what its task yields into its response.
    pub fn apply_output<R: TestRequest>(&self, request: R) -> (r: PollTask<Response>) where
        E::Output: Output,

        requires
            self.endpoint.wf(),
            request.constructible(),
        ensures
            exists|made: TestInput| #[trigger] request.makes(&made) && self.answers(&made, r),
    {
        let made = request.into_request().unwrap();
        let r = self.output_of(made);
        r
    }

    /// Runs the endpoint on a request, if `request` stands for one, and turns what its task
    /// yields into its response.
    pub fn try_apply_output<R: TestRequest>(&self, request: R) -> (r: Option<PollTask<Response>>) where
        E::Output: Output,

        requires
            self.endpoint.wf(),
        ensures
            r is Some <==> request.constructible(),
            r matches Some(p) ==> exists|made: TestInput| #[trigger]
                request.makes(&made) && self.answers(&made, p),
    {
        match request.into_request() {
            Some(made) => Some(self.apply_output(made)),
            None => None,
        }
    }

    /// Whether `r` is what comes back for `request` in the end: nothing yet where the
    /// budget of polls is spent, and otherwise the response or the failure as it goes out,
    /// with the length of its body as a header field.
    pub open spec fn replies(&self, request: &TestInput, r: &Async<TestResponse>) -> bool where
        E::Output: Output,
     {
        exists|out: PollTask<Response>| #[trigger]
            self.answers(request, out) && match out {
                Ok(Async::NotReady) => *r is NotReady,
                Ok(Async::Ready(made)) => *r matches Async::Ready(response) && is_received(
                    &Ok::<Response, Error>(made),
                    &response,
                ),
                Err(e) => *r matches Async::Ready(response) && is_received(
                    &Err::<Response, Error>(e),
                    &response,
                ),
            }
    }

    /// Runs the endpoint on a request and returns the response as a client receives it.
    pub fn response_of(&self, request: TestInput) -> (r: Async<TestResponse>) where
        E::Output: Output,

        requires
            self.endpoint.wf(),
            request.input.body_present(),
        ensures
            self.replies(&request, &r),
    {
        let out = self.output_of(request);
        let output = match out {
            Ok(Async::Ready(made)) => Ok(made),
            Ok(Async::NotReady) => {
                return Async::NotReady;
            },
            Err(e) => Err(e),
        };
        let response = finalize(output);
        let Response { status, headers, body } = response;
        let mut headers = headers;
        let length = body.len() as u64;
        headers.or_insert("content-length", decimal(length).as_str());
        let mut data: Vec<Vec<u8>> = Vec::new();
        data.push(body);
        let received = TestResponse {
            status,
            headers,
            data,
            trailers: None,
            content_length: Some(length),
            upgraded: false,
        };
        Async::Ready(received)
    }

    /// Runs the endpoint on a request and returns the response as a client receives it.
    pub fn apply_all<R: TestRequest>(&self, request: R) -> (r: Async<TestResponse>) where
        E::Output: Output,

        requires
            self.endpoint.wf(),
            request.constructible(),
        ensures
            exists|made: TestInput| #[trigger] request.makes(&made) && self.replies(&made, &r),
    {
        let made = request.into_request().unwrap();
        let r = self.response_of(made);
        r
    }
}

impl<E: Endpoint> TestRunner<E> where E::Output: Output {
    /// Runs the endpoint on a request, if `request` stands for one, and returns the response
    /// as a client receives it.
    pub fn try_apply_all<R: TestRequest>(&self, request: R) -> (r: Option<Async<TestResponse>>)
        requires
            self.endpoint.wf(),
        ensures
            r is Some <==> request.constructible(),
            r matches Some(p) ==> exists|made: TestInput| #[trigger]
                request.makes(&made) && self.replies(&made, &p),
    {
        match request.into_request() {
            Some(made) => Some(self.apply_all(made)),
            None => None,
        }
    }
}

/// The one value of a tuple of one, in the result of a poll.
pub open spec fn only<T>(p: PollTask<(T,)>) -> PollTask<T> {
    match p {
        Ok(Async::Ready(output)) => Ok(Async::Ready(output.0)),
        Ok(Async::NotReady) => Ok(Async::NotReady),
        Err(e) => Err(e),
    }
}

impl<T, E: Endpoint<Output = (T,)>> TestRunner<E> {
    /// Runs the endpoint on a request, if `request` stands for one, and returns the one
    /// value that its task yields.
    pub fn try_apply<R: TestRequest>(&self, request: R) -> (r: Option<PollTask<T>>)
        requires
            self.endpoint.wf(),
        ensures
            r is Some <==> request.constructible(),
            r matches Some(v) ==> exists|made: TestInput, p: PollTask<(T,)>|
                #[trigger] request.makes(&made) && #[trigger] self.drives(&made, p) && v == only(
                    p,
                ),
    {
        match request.into_request() {
            Some(made) => Some(self.apply(made)),
            None => None,
        }
    }

    /// Runs the endpoint on a request, and returns the one value that its task yields.
    pub fn apply<R: TestRequest>(&self, request: R) -> (r: PollTask<T>)
        requires
            self.endpoint.wf(),
            request.constructible(),
        ensures
            exists|made: TestInput, p: PollTask<(T,)>|
                #[trigger] request.makes(&made) && #[trigger] self.drives(&made, p) && r == only(
                    p,
                ),
    {
        let made = request.into_request().unwrap();
        let p = self.apply_request(made);
        match p {
            Ok(Async::Ready(output)) => Ok(Async::Ready(output.0)),
            Ok(Async::NotReady) => Ok(Async::NotReady),
            Err(e) => Err(e),
        }
    }
}

/// The bytes of the chunks `chunks`, one chunk after the other.
pub open spec fn concat(chunks: Seq<Seq<u8>>) -> Seq<u8>
    decreases chunks.len(),
{
    if chunks.len() == 0 {
        Seq::empty()
    } else {
        concat(chunks.drop_last()) + chunks.last()
    }
}

/// The bytes of the chunks `chunks`, one chunk after the other.
pub fn join_chunks(chunks: &Vec<Vec<u8>>) -> (r: Vec<u8>)
    ensures
        r@ == concat(chunks@.map_values(|chunk: Vec<u8>| chunk@)),
{
    let ghost all = chunks@.map_values(|chunk: Vec<u8>| chunk@);
    let mut bytes: Vec<u8> = Vec::new();
    let mut i: usize = 0;
    while i < chunks.len()
        invariant
            i <= chunks.len(),
            all == chunks@.map_values(|chunk: Vec<u8>| chunk@),
            bytes@ == concat(all.take(i as int)),
        decreases chunks.len() - i,
    {
        proof {
            assert(all.take(i + 1).drop_last() == all.take(i as int));
        }
        bytes.extend_from_slice(chunks[i].as_slice());
        i = i + 1;
    }
    proof {
        assert(all.take(all.len() as int) == all);
    }
    bytes
}

/// What bytes that are no UTF-8 are read as when nothing may be lost: the text in which
/// each ill-formed piece is replaced by the replacement character.
pub uninterp spec fn lossy_text(bytes: Seq<u8>) -> Seq<char>;

/// `String::from_utf8_lossy`: the text that the bytes encode, with the replacement
/// character in place of what is no UTF-8. Bytes that are UTF-8 give the text they encode.
#[verifier::external_body]
pub(crate) fn string_from_utf8_lossy(bytes: &Vec<u8>) -> (r: String)
    ensures
        r@ == lossy_text(bytes@),
        valid_utf8(bytes@) ==> r@ == decode_utf8(bytes@),
{
    String::from_utf8_lossy(bytes).into_owned()
}

/// A response as a client receives it.
#[derive(Debug)]
pub struct TestResponse {
    pub status: StatusCode,
    pub headers: Headers,
    /// The chunks of the body, in the order in which they arrived.
    pub data: Vec<Vec<u8>>,
    pub trailers: Option<Headers>,
    pub content_length: Option<u64>,
    pub upgraded: bool,
}

/// Whether `received` is what a client receives for `output`: the response that goes out
/// for it, with its body in one chunk and the length of the body as a header field.
pub open spec fn is_received(output: &Result<Response, Error>, received: &TestResponse) -> bool {
    exists|sent: Response| #[trigger] is_final(output, &sent) && received.carries(&sent)
}

impl TestResponse {
    /// The bytes of the body.
    pub open spec fn bytes(&self) -> Seq<u8> {
        concat(self.data@.map_values(|chunk: Vec<u8>| chunk@))
    }

    /// Whether this is the response `sent` as a client receives it.
    pub open spec fn carries(&self, sent: &Response) -> bool {
        &&& self.status == sent.status
        &&& self.headers@ == or_inserted(
            sent.headers@,
            "content-length"@,
            decimal_text(sent.body@.len()),
        )
        &&& self.data@ == seq![sent.body]
        &&& self.trailers is None
        &&& self.content_length == Some(sent.body@.len() as u64)
        &&& !self.upgraded
    }

    /// The status code and the header fields.
    pub fn parts(&self) -> (r: (StatusCode, &Headers))
        ensures
            r.0 == self.status,
            *r.1 == self.headers,
    {
        (self.status, &self.headers)
    }

    pub fn data(&self) -> (r: &Vec<Vec<u8>>)
        ensures
            *r == self.data,
    {
        &self.data
    }

    pub fn trailers(&self) -> (r: Option<&Headers>)
        ensures
            r == match self.trailers {
                Some(headers) => Some(&headers),
                None => None::<&Headers>,
            },
    {
        self.trailers.as_ref()
    }

    pub fn content_length(&self) -> (r: Option<u64>)
        ensures
            r == self.content_length,
    {
        self.content_length
    }

    /// Whether the body came without a length given beforehand.
    pub fn is_chunked(&self) -> (r: bool)
        ensures
            r == (self.content_length is None),
    {
        self.content_length.is_none()
    }

    /// Whether the connection was handed over to another protocol.
    pub fn is_upgraded(&self) -> (r: bool)
        ensures
            r == self.upgraded,
    {
        self.upgraded
    }

    /// The bytes of the body.
    pub fn to_bytes(&self) -> (r: Vec<u8>)
        ensures
            r@ == self.bytes(),
    {
        join_chunks(&self.data)
    }

    /// The body as text, if its bytes are UTF-8.
    pub fn to_utf8(&self) -> (r: Option<String>)
        ensures
            r is Some <==> valid_utf8(self.bytes()),
            r matches Some(text) ==> text@ == decode_utf8(self.bytes()),
    {
        string_from_utf8(self.to_bytes())
    }

    /// The body as text; what is no UTF-8 in it is replaced.
    pub fn to_utf8_lossy(&self) -> (r: String)
        ensures
            r@ == lossy_text(self.bytes()),
            valid_utf8(self.bytes()) ==> r@ == decode_utf8(self.bytes()),
    {
        let bytes = self.to_bytes();
        string_from_utf8_lossy(&bytes)
    }
}

} // verus!
