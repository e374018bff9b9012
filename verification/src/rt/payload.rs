//! The body of a response on its way out.

use vstd::prelude::*;
use vstd::string::StrSliceExecFns;
use vstd::utf8::encode_utf8;
use crate::endpoint::or::Either;
use crate::headers::Headers;

verus! {

/// The body of a response that a service gives back: the description of a failure, or
/// the body that an output gave. It is handed out in one piece, once.
#[derive(Debug)]
pub struct AppPayload {
    pub inner: Either<Option<String>, Option<Vec<u8>>>,
}

/// How many bytes a body will hand out: at least `lower`, and at most `upper` where that
/// is known.
#[derive(Debug, Clone, Copy, PartialEq, Eq, Structural)]
pub struct SizeHint {
    pub lower: usize,
    pub upper: Option<usize>,
}

impl AppPayload {
    /// The bytes that have not been handed out, if there are any left to hand out.
    pub open spec fn pending(&self) -> Option<Seq<u8>> {
        match self.inner {
            Either::Left(Some(message)) => Some(encode_utf8(message@)),
            Either::Right(Some(body)) => Some(body@),
            _ => None,
        }
    }

    /// Whether the body is the description of a failure.
    pub open spec fn is_failure(&self) -> bool {
        self.inner is Left
    }

    /// The body that stands for `body`: the description of a failure, or the bytes of an
    /// output.
    pub fn new(body: Either<String, Vec<u8>>) -> (r: AppPayload)
        ensures
            r.is_failure() == (body is Left),
            r.pending() == Some(
                match body {
                    Either::Left(message) => encode_utf8(message@),
                    Either::Right(bytes) => bytes@,
                },
            ),
    {
        match body {
            Either::Left(message) => AppPayload::err(message),
            Either::Right(bytes) => AppPayload::ok(bytes),
        }
    }

    /// The body that describes a failure.
    pub fn err(message: String) -> (r: AppPayload)
        ensures
            r.is_failure(),
            r.pending() == Some(encode_utf8(message@)),
    {
        AppPayload { inner: Either::Left(Some(message)) }
    }

    /// The body that an output gave.
    pub fn ok(body: Vec<u8>) -> (r: AppPayload)
        ensures
            !r.is_failure(),
            r.pending() == Some(body@),
    {
        AppPayload { inner: Either::Right(Some(body)) }
    }

    /// Hands out the bytes of the body, and then nothing more.
    pub fn poll_data(&mut self) -> (r: Option<Vec<u8>>)
        ensures
            final(self).is_failure() == old(self).is_failure(),
            final(self).pending() is None,
            r is Some <==> old(self).pending() is Some,
            r matches Some(bytes) ==> old(self).pending() == Some(bytes@),
    {
        match &mut self.inner {
            Either::Left(message) => match message.take() {
                Some(message) => Some(message.as_str().as_bytes_vec()),
                None => None,
            },
            Either::Right(body) => body.take(),
        }
    }

    /// The header fields behind the body: there are none.
    pub fn poll_trailers(&mut self) -> (r: Option<Headers>)
        ensures
            r is None,
            *final(self) == *old(self),
    {
        None
    }

    /// Whether everything has been handed out.
    pub fn is_end_stream(&self) -> (r: bool)
        ensures
            r == (self.pending() is None),
    {
        match &self.inner {
            Either::Left(message) => message.is_none(),
            Either::Right(body) => body.is_none(),
        }
    }

    /// The number of bytes that are left to hand out, if there are any.
    pub fn content_length(&self) -> (r: Option<u64>)
        ensures
            r is Some <==> self.pending() is Some,
            r matches Some(n) ==> n == self.pending()->0.len(),
    {
        match &self.inner {
            Either::Left(Some(message)) => Some(message.as_str().as_bytes().len() as u64),
            Either::Right(Some(body)) => Some(body.len() as u64),
            _ => None,
        }
    }

    /// How many bytes will still come: exactly as many as are left, or nothing that is
    /// known where everything has been handed out.
    pub fn size_hint(&self) -> (r: SizeHint)
        ensures
            r == match self.pending() {
                Some(bytes) => if bytes.len() < usize::MAX {
                    (SizeHint { lower: bytes.len() as usize, upper: Some(bytes.len() as usize) })
                } else {
                    (SizeHint { lower: usize::MAX, upper: None })
                },
                None => (SizeHint { lower: 0, upper: None }),
            },
    {
        match self.content_length() {
            Some(length) => if length < usize::MAX as u64 {
                let length = length as usize;
                SizeHint { lower: length, upper: Some(length) }
            } else {
                SizeHint { lower: usize::MAX, upper: None }
            },
            None => SizeHint { lower: 0, upper: None },
        }
    }
}

} // verus!
