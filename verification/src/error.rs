//! Failures of a request: a status code and a description of the cause.

use vstd::prelude::*;

verus! {

/// An HTTP status code: a number from 100 to 599.
#[derive(Clone, Copy, Debug, PartialEq, Eq, Structural)]
pub struct StatusCode {
    code: u16,
}

impl StatusCode {
    #[verifier::type_invariant]
    spec fn in_range(self) -> bool {
        100 <= self.code < 600
    }

    /// The number of this status code.
    pub closed spec fn value(self) -> int {
        self.code as int
    }

    /// The status code whose number is `n`.
    pub closed spec fn numbered(n: int) -> StatusCode {
        StatusCode { code: n as u16 }
    }

    /// A status code has the number it was made with.
    pub broadcast proof fn lemma_numbered(n: int)
        requires
            100 <= n < 600,
        ensures
            (#[trigger] StatusCode::numbered(n)).value() == n,
    {
    }

    /// A status code is determined by its number.
    pub proof fn lemma_same_number(self, other: StatusCode)
        requires
            self.value() == other.value(),
        ensures
            self == other,
    {
    }

    /// The status code with the given number, if that lies from 100 to 599.
    pub fn from_u16(code: u16) -> (r: Option<StatusCode>)
        ensures
            r is Some <==> 100 <= code < 600,
            r matches Some(s) ==> s == StatusCode::numbered(code as int),
    {
        if 100 <= code && code < 600 {
            Some(StatusCode { code })
        } else {
            None
        }
    }

    pub fn as_u16(self) -> (r: u16)
        ensures
            r == self.value(),
            100 <= r < 600,
    {
        proof {
            use_type_invariant(self);
        }
        self.code
    }

    /// Whether the code is in the class 4xx.
    pub fn is_client_error(self) -> (r: bool)
        ensures
            r == (400 <= self.value() < 500),
    {
        400 <= self.code && self.code < 500
    }

    /// Whether the code is in the class 5xx.
    pub fn is_server_error(self) -> (r: bool)
        ensures
            r == (500 <= self.value() < 600),
    {
        500 <= self.code && self.code < 600
    }

    /// Whether the code is in the class 3xx.
    pub fn is_redirection(self) -> (r: bool)
        ensures
            r == (300 <= self.value() < 400),
    {
        300 <= self.code && self.code < 400
    }

    pub fn switching_protocols() -> (r: StatusCode)
        ensures
            r == StatusCode::numbered(101),
    {
        StatusCode { code: 101 }
    }

    pub fn ok() -> (r: StatusCode)
        ensures
            r == StatusCode::numbered(200),
    {
        StatusCode { code: 200 }
    }

    pub fn no_content() -> (r: StatusCode)
        ensures
            r == StatusCode::numbered(204),
    {
        StatusCode { code: 204 }
    }

    pub fn moved_permanently() -> (r: StatusCode)
        ensures
            r == StatusCode::numbered(301),
    {
        StatusCode { code: 301 }
    }

    pub fn found() -> (r: StatusCode)
        ensures
            r == StatusCode::numbered(302),
    {
        StatusCode { code: 302 }
    }

    pub fn see_other() -> (r: StatusCode)
        ensures
            r == StatusCode::numbered(303),
    {
        StatusCode { code: 303 }
    }

    pub fn not_modified() -> (r: StatusCode)
        ensures
            r == StatusCode::numbered(304),
    {
        StatusCode { code: 304 }
    }

    pub fn temporary_redirect() -> (r: StatusCode)
        ensures
            r == StatusCode::numbered(307),
    {
        StatusCode { code: 307 }
    }

    pub fn permanent_redirect() -> (r: StatusCode)
        ensures
            r == StatusCode::numbered(308),
    {
        StatusCode { code: 308 }
    }

    pub fn bad_request() -> (r: StatusCode)
        ensures
            r == StatusCode::numbered(400),
    {
        StatusCode { code: 400 }
    }

    pub fn not_found() -> (r: StatusCode)
        ensures
            r == StatusCode::numbered(404),
    {
        StatusCode { code: 404 }
    }

    pub fn internal_server_error() -> (r: StatusCode)
        ensures
            r == StatusCode::numbered(500),
    {
        StatusCode { code: 500 }
    }
}

/// An error that knows the status code of the response it should give.
pub trait HttpError {
    spec fn spec_status_code(&self) -> StatusCode;

    spec fn spec_description(&self) -> Seq<char>;

    /// The status code of the response made for this error.
    fn status_code(&self) -> (r: StatusCode)
        ensures
            r == self.spec_status_code(),
    ;

    /// The cause, in words.
    fn description(&self) -> (r: String)
        ensures
            r@ == self.spec_description(),
    ;
}

/// The failure of a task: what a poll returns in place of an output.
#[derive(Debug)]
pub struct Error {
    status: StatusCode,
    message: String,
}

impl Error {
    /// The status code of the response made for this failure.
    pub closed spec fn status(&self) -> StatusCode {
        self.status
    }

    /// The description of the cause.
    pub closed spec fn text(&self) -> Seq<char> {
        self.message@
    }

    pub fn new(status: StatusCode, message: String) -> (r: Error)
        ensures
            r.status() == status,
            r.text() == message@,
    {
        Error { status, message }
    }

    /// The failure that stands for `cause`: its status code and its description.
    pub fn from_http<E: HttpError>(cause: &E) -> (r: Error)
        ensures
            r.status() == cause.spec_status_code(),
            r.text() == cause.spec_description(),
    {
        Error { status: cause.status_code(), message: cause.description() }
    }

    /// The status code of the response made for this failure.
    pub fn status_code(&self) -> (r: StatusCode)
        ensures
            r == self.status(),
    {
        self.status
    }

    pub fn message(&self) -> (r: &String)
        ensures
            r@ == self.text(),
    {
        &self.message
    }

    /// Whether this failure says that no route took the request.
    pub fn is_noroute(&self) -> (r: bool)
        ensures
            r == (self.status().value() == 404),
    {
        self.status.as_u16() == 404
    }

    /// A copy of this failure.
    pub fn duplicate(&self) -> (r: Error)
        ensures
            r.status() == self.status(),
            r.text() == self.text(),
    {
        Error { status: self.status, message: self.message.clone() }
    }
}

impl HttpError for Error {
    open spec fn spec_status_code(&self) -> StatusCode {
        self.status()
    }

    open spec fn spec_description(&self) -> Seq<char> {
        self.text()
    }

    fn status_code(&self) -> (r: StatusCode) {
        self.status
    }

    fn description(&self) -> (r: String) {
        self.message.clone()
    }
}

/// A request that cannot be served as it was sent: a value in it could not be decoded.
#[derive(Debug)]
pub struct BadRequest<E> {
    pub cause: E,
}

impl<E: HttpError> BadRequest<E> {
    pub fn new(cause: E) -> (r: BadRequest<E>)
        ensures
            r.cause == cause,
    {
        BadRequest { cause }
    }
}

impl<E: HttpError> HttpError for BadRequest<E> {
    open spec fn spec_status_code(&self) -> StatusCode {
        StatusCode::numbered(400)
    }

    open spec fn spec_description(&self) -> Seq<char> {
        self.cause.spec_description()
    }

    fn status_code(&self) -> (r: StatusCode) {
        StatusCode::bad_request()
    }

    fn description(&self) -> (r: String) {
        self.cause.description()
    }
}

/// A part of the request that an endpoint needs is not there.
#[derive(Debug)]
pub struct NotPresent {
    pub message: String,
}

impl NotPresent {
    pub fn new(message: &str) -> (r: NotPresent)
        ensures
            r.message@ == message@,
    {
        NotPresent { message: message.to_owned() }
    }
}

impl HttpError for NotPresent {
    open spec fn spec_status_code(&self) -> StatusCode {
        StatusCode::numbered(400)
    }

    open spec fn spec_description(&self) -> Seq<char> {
        self.message@
    }

    fn status_code(&self) -> (r: StatusCode) {
        StatusCode::bad_request()
    }

    fn description(&self) -> (r: String) {
        self.message.clone()
    }
}

/// No endpoint took the request.
#[derive(Debug)]
pub struct NoRoute;

impl HttpError for NoRoute {
    open spec fn spec_status_code(&self) -> StatusCode {
        StatusCode::numbered(404)
    }

    open spec fn spec_description(&self) -> Seq<char> {
        "no route"@
    }

    fn status_code(&self) -> (r: StatusCode) {
        StatusCode::not_found()
    }

    fn description(&self) -> (r: String) {
        "no route".to_owned()
    }
}

/// A failure with the status code 400 and the given description.
pub fn bad_request(message: &str) -> (r: Error)
    ensures
        r.status() == StatusCode::numbered(400),
        r.text() == message@,
{
    Error::new(StatusCode::bad_request(), message.to_owned())
}

/// A failure with the status code 500 and the given description.
pub fn internal_server_error(message: &str) -> (r: Error)
    ensures
        r.status() == StatusCode::numbered(500),
        r.text() == message@,
{
    Error::new(StatusCode::internal_server_error(), message.to_owned())
}

/// Whether `e` says that no endpoint took the request.
pub open spec fn is_no_route(e: &Error) -> bool {
    e.status() == StatusCode::numbered(404) && e.text() == "no route"@
}

/// The failure that the driver reports when every alternative declined.
pub fn no_route() -> (r: Error)
    ensures
        is_no_route(&r),
{
    let cause = NoRoute;
    Error::from_http(&cause)
}

} // verus!
