//! Responses that send the client elsewhere.

use vstd::prelude::*;
use crate::error::{Error, StatusCode};
use crate::headers::{appended, no_fields};
use crate::input::Input;
use crate::output::{Output, Response};

verus! {

/// An output that stands for a redirection: a status code and, where there is one, the
/// place to go to.
#[derive(Debug, Clone)]
pub struct Redirect {
    pub status: StatusCode,
    pub location: Option<String>,
}

impl Redirect {
    /// The place to go to, as text.
    pub open spec fn target(&self) -> Option<Seq<char>> {
        match self.location {
            Some(location) => Some(location@),
            None => None,
        }
    }

    /// A redirection with the status code `status` and no place to go to.
    pub fn new(status: StatusCode) -> (r: Redirect)
        ensures
            r.status == status,
            r.location is None,
    {
        Redirect { status, location: None }
    }

    /// This redirection with the place `location` to go to.
    pub fn location(self, location: &str) -> (r: Redirect)
        ensures
            r.status == self.status,
            r.target() == Some(location@),
    {
        Redirect { status: self.status, location: Some(location.to_owned()) }
    }

    /// "301 Moved Permanently", to `location`.
    pub fn moved_permanently(location: &str) -> (r: Redirect)
        ensures
            r.status == StatusCode::numbered(301),
            r.target() == Some(location@),
    {
        Redirect { status: StatusCode::moved_permanently(), location: Some(location.to_owned()) }
    }

    /// "302 Found", to `location`.
    pub fn found(location: &str) -> (r: Redirect)
        ensures
            r.status == StatusCode::numbered(302),
            r.target() == Some(location@),
    {
        Redirect { status: StatusCode::found(), location: Some(location.to_owned()) }
    }

    /// "303 See Other", to `location`.
    pub fn see_other(location: &str) -> (r: Redirect)
        ensures
            r.status == StatusCode::numbered(303),
            r.target() == Some(location@),
    {
        Redirect { status: StatusCode::see_other(), location: Some(location.to_owned()) }
    }

    /// "307 Temporary Redirect", to `location`.
    pub fn temporary_redirect(location: &str) -> (r: Redirect)
        ensures
            r.status == StatusCode::numbered(307),
            r.target() == Some(location@),
    {
        Redirect { status: StatusCode::temporary_redirect(), location: Some(location.to_owned()) }
    }

    /// "308 Permanent Redirect", to `location`.
    pub fn permanent_redirect(location: &str) -> (r: Redirect)
        ensures
            r.status == StatusCode::numbered(308),
            r.target() == Some(location@),
    {
        Redirect { status: StatusCode::permanent_redirect(), location: Some(location.to_owned()) }
    }

    /// "304 Not Modified": no place to go to.
    pub fn not_modified() -> (r: Redirect)
        ensures
            r.status == StatusCode::numbered(304),
            r.location is None,
    {
        Redirect::new(StatusCode::not_modified())
    }

    /// The response of this redirection: its status code, the header field `location` if
    /// there is a place to go to, and no body.
    pub fn into_response(self) -> (r: Response)
        ensures
            r.status == self.status,
            r.body@ == Seq::<u8>::empty(),
            r.headers@ == match self.target() {
                Some(location) => appended(no_fields(), "location"@, location),
                None => no_fields(),
            },
    {
        let mut response = Response::new(self.status);
        if let Some(location) = self.location {
            response.headers.append("location", location.as_str());
        }
        response
    }
}

impl Output for Redirect {
    open spec fn responds(&self, input: &Input, r: &Result<Response, Error>) -> bool {
        &&& r matches Ok(response)
        &&& response.status == self.status
        &&& response.body@ == Seq::<u8>::empty()
        &&& response.headers@ == match self.target() {
            Some(location) => appended(no_fields(), "location"@, location),
            None => no_fields(),
        }
    }

    fn respond(self, input: &Input) -> (r: Result<Response, Error>) {
        Ok(self.into_response())
    }
}

} // verus!
