//! Endpoints on the path of a request:
//!
//! * `MatchPath` checks that the next segments are certain texts;
//! * `ExtractPath<T>` decodes the next segment into a `T`;
//! * `ExtractPaths<T>` decodes all the segments that are left into a `T`.
//!
//! `ExtractPath<T>` declines a request whose segment does not decode. Its variants take the
//! request all the same: `ExtractPathRequired<T>` hands out a task that fails with a bad
//! request, `ExtractPathOptional<T>` one that yields `None`.
//!
//! `MatchPath` consumes segments only when it takes the request. An extractor consumes what
//! it reads, the next segment or all that are left, whether or not the text decodes.

use std::marker::PhantomData;
use vstd::prelude::*;
use crate::context::ApplyContext;
use crate::decode::{texts, FromSegment, FromSegments};
use crate::endpoint::{Endpoint, IntoEndpoint};
use crate::error::{BadRequest, Error, HttpError, NotPresent, StatusCode};
use crate::input::Input;
use crate::task::{failed, ready, Immediate};
use crate::text::{slash_bounds, split, split_on, trim, trim_bounds, trimmed, without_slashes};

verus! {

/// What a `MatchPath` asks of the path.
#[derive(Debug, Clone, PartialEq)]
pub enum MatchPathKind {
    /// The next segments are these texts, in this order.
    Segments(Vec<String>),
    /// Whatever segments are left.
    AllSegments,
}

/// An endpoint that checks the next segments of the path, and consumes them.
#[derive(Debug, Clone)]
pub struct MatchPath {
    pub kind: MatchPathKind,
}

impl MatchPath {
    pub fn kind(&self) -> (r: &MatchPathKind)
        ensures
            *r == self.kind,
    {
        &self.kind
    }
}

/// Whether the segments of `segments` from `pos` on start with the texts `literals`.
pub open spec fn starts_with(segments: Seq<Seq<char>>, pos: nat, literals: Seq<String>) -> bool {
    &&& pos + literals.len() <= segments.len()
    &&& forall|i: int| 0 <= i < literals.len() ==> segments[pos + i] == (#[trigger] literals[i])@
}

impl Endpoint for MatchPath {
    type Output = ();

    type Task = Immediate<()>;

    open spec fn wf(&self) -> bool {
        true
    }

    open spec fn takes_body(&self) -> bool {
        false
    }

    open spec fn matches(&self, input: &Input, pos: nat) -> bool {
        match self.kind {
            MatchPathKind::Segments(literals) => starts_with(input.spec_segments(), pos, literals@),
            MatchPathKind::AllSegments => true,
        }
    }

    /// A `MatchPath` that declines consumes nothing.
    open spec fn position_after(&self, input: &Input, pos: nat) -> nat {
        match self.kind {
            MatchPathKind::Segments(literals) => if starts_with(
                input.spec_segments(),
                pos,
                literals@,
            ) {
                (pos + literals.len()) as nat
            } else {
                pos
            },
            MatchPathKind::AllSegments => if pos <= input.spec_segments().len() {
                input.spec_segments().len()
            } else {
                pos
            },
        }
    }

    open spec fn produces(&self, input: &Input, pos: nat, task: &Self::Task) -> bool {
        task.outcome == Some(Ok::<(), Error>(()))
    }

    fn apply(&self, cx: &mut ApplyContext) -> (r: Option<Self::Task>) {
        broadcast use ApplyContext::lemma_at_pos;

        let pos = cx.position();
        let left = cx.remaining();
        let count = cx.input().segment_count();
        match &self.kind {
            MatchPathKind::Segments(literals) => {
                let n = literals.len();
                if n > left {
                    return None;
                }
                let mut i: usize = 0;
                while i < n
                    invariant
                        n == literals.len(),
                        i <= n,
                        self.kind == MatchPathKind::Segments(*literals),
                        *cx == *old(cx),
                        pos == cx.pos(),
                        count == cx.segments().len(),
                        pos + n <= count,
                        forall|k: int|
                            0 <= k < i ==> cx.segments()[pos + k] == (#[trigger] literals[k])@,
                    decreases n - i,
                {
                    if *cx.segment(pos + i) != literals[i] {
                        proof {
                            cx.lemma_at_pos();
                        }
                        return None;
                    }
                    i = i + 1;
                }
                cx.advance(n);
                Some(ready(()))
            },
            MatchPathKind::AllSegments => {
                cx.advance(left);
                Some(ready(()))
            },
        }
    }
}

/// Why a text is no pattern of segments.
#[derive(Debug, PartialEq)]
pub enum ParseMatchError {
    /// A segment of the pattern is empty.
    EmptyString,
}

/// The pattern written as `s`: `s` without the white space and then the slashes around it.
pub open spec fn pattern_text(s: Seq<char>) -> Seq<char> {
    without_slashes(trimmed(s))
}

/// The segments of the pattern written as `s`: the parts between its slashes, each
/// without the white space around it.
pub open spec fn pattern_parts(s: Seq<char>) -> Seq<Seq<char>> {
    split_on(pattern_text(s), '/').map_values(|part: Seq<char>| trimmed(part))
}

/// Whether `s` is the pattern `*`, which stands for whatever segments are left.
pub open spec fn is_wildcard(s: Seq<char>) -> bool {
    pattern_text(s) == seq!['*']
}

/// Whether a segment of the pattern written as `s` is empty.
pub open spec fn has_empty_part(s: Seq<char>) -> bool {
    exists|i: int| 0 <= i < pattern_parts(s).len() && (#[trigger] pattern_parts(s)[i]).len() == 0
}

/// Whether `s` writes a pattern.
pub open spec fn is_pattern(s: Seq<char>) -> bool {
    is_wildcard(s) || !has_empty_part(s)
}

/// Whether `kind` is what the pattern written as `s` asks.
pub open spec fn pattern_is(s: Seq<char>, kind: MatchPathKind) -> bool {
    if is_wildcard(s) {
        kind is AllSegments
    } else {
        kind matches MatchPathKind::Segments(literals) && texts(literals@) == pattern_parts(s)
    }
}

/// Reads a pattern: segments with `/` between them, or `*`. White space and slashes around
/// the pattern, and white space around a segment, do not count.
pub fn match_(s: &str) -> (r: Result<MatchPath, ParseMatchError>)
    ensures
        r is Ok <==> is_pattern(s@),
        r matches Ok(m) ==> pattern_is(s@, m.kind),
{
    let n = s.unicode_len();
    proof {
        assert(s@.subrange(0, n as int) == s@);
    }
    let (a, b) = trim_bounds(s, 0, n);
    let (c, d) = slash_bounds(s, a, b);
    let pattern = s.substring_char(c, d);
    if pattern.unicode_len() == 1 && pattern.get_char(0) == '*' {
        assert(pattern@ == seq!['*']);
        return Ok(MatchPath { kind: MatchPathKind::AllSegments });
    }
    let parts = split(pattern, '/');
    let mut segments: Vec<String> = Vec::new();
    let mut i: usize = 0;
    while i < parts.len()
        invariant
            i <= parts.len(),
            segments.len() == i,
            !is_wildcard(s@),
            parts.len() == pattern_parts(s@).len(),
            forall|k: int|
                0 <= k < parts.len() ==> trimmed((#[trigger] parts[k])@) == pattern_parts(s@)[k],
            forall|k: int| 0 <= k < i ==> (#[trigger] segments[k])@ == pattern_parts(s@)[k],
            forall|k: int| 0 <= k < i ==> (#[trigger] pattern_parts(s@)[k]).len() != 0,
        decreases parts.len() - i,
    {
        let segment = trim(parts[i].as_str());
        if segment.as_str().unicode_len() == 0 {
            return Err(ParseMatchError::EmptyString);
        }
        segments.push(segment);
        i = i + 1;
    }
    assert(texts(segments@) =~= pattern_parts(s@));
    Ok(MatchPath { kind: MatchPathKind::Segments(segments) })
}

impl<'a> IntoEndpoint for &'a str {
    type Output = ();

    type Endpoint = MatchPath;

    open spec fn convertible(&self) -> bool {
        is_pattern(self@)
    }

    open spec fn converts_to(&self, endpoint: &MatchPath) -> bool {
        pattern_is(self@, endpoint.kind)
    }

    fn into_endpoint(self) -> (r: MatchPath) {
        match_(self).unwrap()
    }
}

impl IntoEndpoint for String {
    type Output = ();

    type Endpoint = MatchPath;

    open spec fn convertible(&self) -> bool {
        is_pattern(self@)
    }

    open spec fn converts_to(&self, endpoint: &MatchPath) -> bool {
        pattern_is(self@, endpoint.kind)
    }

    fn into_endpoint(self) -> (r: MatchPath) {
        match_(self.as_str()).unwrap()
    }
}

/// The failure of a required extractor that found no segment.
pub open spec fn is_missing_segment(e: &Error) -> bool {
    &&& e.status() == StatusCode::numbered(400)
    &&& e.text() == "The number of path segments is insufficient"@
}

/// Whether `input` has a next segment, when `pos` are consumed, that decodes into a `T`.
pub open spec fn next_decodes<T: FromSegment>(input: &Input, pos: nat) -> bool {
    pos < input.spec_segments().len() && T::decodable(input.spec_segments()[pos as int])
}

/// Whether `task` yields the value of the next segment of `input`.
pub open spec fn yields_next<T: FromSegment>(input: &Input, pos: nat, task: &Immediate<(T,)>) -> bool {
    task.outcome matches Some(Ok(output)) && T::decodes(
        input.spec_segments()[pos as int],
        &output.0,
    )
}

/// Where the cursor stands after an extractor has read the next segment: one segment
/// further if there was one.
pub open spec fn after_next(input: &Input, pos: nat) -> nat {
    if pos < input.spec_segments().len() {
        (pos + 1) as nat
    } else {
        pos
    }
}

/// Consumes the next segment, if there is one, and decodes it into a `T`. Hands out nothing
/// where there is no segment or it does not decode.
pub fn extract_next<T: FromSegment>(cx: &mut ApplyContext) -> (r: Option<Immediate<(T,)>>)
    ensures
        r is Some <==> next_decodes::<T>(&old(cx).request(), old(cx).pos()),
        *final(cx) == old(cx).at(after_next(&old(cx).request(), old(cx).pos())),
        final(cx).request() == old(cx).request(),
        final(cx).pos() == after_next(&old(cx).request(), old(cx).pos()),
        old(cx).pos() <= final(cx).pos() <= old(cx).segments().len(),
        r matches Some(task) ==> yields_next::<T>(&old(cx).request(), old(cx).pos(), &task),
{
    broadcast use ApplyContext::lemma_at_pos;

    let _ = cx.position();
    let decoded = match cx.peek() {
        Some(segment) => T::from_segment(segment.as_str()),
        None => {
            return None;
        },
    };
    cx.advance(1);
    match decoded {
        Ok(value) => Some(ready((value,))),
        Err(_) => None,
    }
}

/// An endpoint that decodes the next segment, and declines a request without one or with
/// one that does not decode. The segment that does not decode is consumed all the same.
#[derive(Debug)]
pub struct ExtractPath<T> {
    pub _marker: PhantomData<T>,
}

/// The endpoint that decodes the next segment into a `T`.
pub fn path<T: FromSegment>() -> (r: ExtractPath<T>)
    ensures
        r == (ExtractPath::<T> { _marker: PhantomData }),
{
    ExtractPath { _marker: PhantomData }
}

impl<T> Clone for ExtractPath<T> {
    fn clone(&self) -> (r: Self)
        ensures
            r == *self,
    {
        ExtractPath { _marker: PhantomData }
    }
}

impl<T: FromSegment> Endpoint for ExtractPath<T> {
    type Output = (T,);

    type Task = Immediate<(T,)>;

    open spec fn wf(&self) -> bool {
        true
    }

    open spec fn takes_body(&self) -> bool {
        false
    }

    open spec fn matches(&self, input: &Input, pos: nat) -> bool {
        next_decodes::<T>(input, pos)
    }

    /// One segment is consumed if there is one, whether or not it decodes.
    open spec fn position_after(&self, input: &Input, pos: nat) -> nat {
        after_next(input, pos)
    }

    open spec fn produces(&self, input: &Input, pos: nat, task: &Self::Task) -> bool {
        yields_next::<T>(input, pos, task)
    }

    fn apply(&self, cx: &mut ApplyContext) -> (r: Option<Self::Task>) {
        let _ = cx.position();
        extract_next::<T>(cx)
    }
}

/// An endpoint that decodes the next segment, and takes every request: where the segment
/// is missing or does not decode, its task fails with a bad request.
#[derive(Debug)]
pub struct ExtractPathRequired<T> {
    pub _marker: PhantomData<T>,
}

/// The endpoint that asks for a next segment that decodes into a `T`.
pub fn path_req<T: FromSegment>() -> (r: ExtractPathRequired<T>)
    ensures
        r == (ExtractPathRequired::<T> { _marker: PhantomData }),
{
    ExtractPathRequired { _marker: PhantomData }
}

impl<T> Clone for ExtractPathRequired<T> {
    fn clone(&self) -> (r: Self)
        ensures
            r == *self,
    {
        ExtractPathRequired { _marker: PhantomData }
    }
}

impl<T: FromSegment> Endpoint for ExtractPathRequired<T> {
    type Output = (T,);

    type Task = Immediate<(T,)>;

    open spec fn wf(&self) -> bool {
        true
    }

    open spec fn takes_body(&self) -> bool {
        false
    }

    open spec fn matches(&self, input: &Input, pos: nat) -> bool {
        true
    }

    open spec fn position_after(&self, input: &Input, pos: nat) -> nat {
        if pos < input.spec_segments().len() {
            (pos + 1) as nat
        } else {
            pos
        }
    }

    open spec fn produces(&self, input: &Input, pos: nat, task: &Self::Task) -> bool {
        if pos >= input.spec_segments().len() {
            task.outcome matches Some(Err(e)) && is_missing_segment(&e)
        } else if T::decodable(input.spec_segments()[pos as int]) {
            task.outcome matches Some(Ok(output)) && T::decodes(
                input.spec_segments()[pos as int],
                &output.0,
            )
        } else {
            task.outcome matches Some(Err(e)) && is_bad_segment::<T>(
                input.spec_segments()[pos as int],
                &e,
            )
        }
    }

    fn apply(&self, cx: &mut ApplyContext) -> (r: Option<Self::Task>) {
        broadcast use ApplyContext::lemma_at_pos;

        let _ = cx.position();
        let decoded = match cx.peek() {
            Some(segment) => T::from_segment(segment.as_str()),
            None => {
                let cause = NotPresent::new("The number of path segments is insufficient");
                return Some(failed(Error::from_http(&cause)));
            },
        };
        cx.advance(1);
        match decoded {
            Ok(value) => Some(ready((value,))),
            Err(e) => Some(failed(Error::from_http(&BadRequest::new(e)))),
        }
    }
}

/// Whether `e` is the bad request that stands for the failure to decode the segment `s`
/// into a `T`.
pub open spec fn is_bad_segment<T: FromSegment>(s: Seq<char>, e: &Error) -> bool {
    &&& e.status() == StatusCode::numbered(400)
    &&& exists|cause: T::Error|
        T::rejects(s, &cause) && e.text() == #[trigger] cause.spec_description()
}

/// An endpoint that decodes the next segment, and takes every request: where the segment
/// is missing or does not decode, its task yields `None`.
#[derive(Debug)]
pub struct ExtractPathOptional<T> {
    pub _marker: PhantomData<T>,
}

/// The endpoint that decodes the next segment into a `T` if it can.
pub fn path_opt<T: FromSegment>() -> (r: ExtractPathOptional<T>)
    ensures
        r == (ExtractPathOptional::<T> { _marker: PhantomData }),
{
    ExtractPathOptional { _marker: PhantomData }
}

impl<T> Clone for ExtractPathOptional<T> {
    fn clone(&self) -> (r: Self)
        ensures
            r == *self,
    {
        ExtractPathOptional { _marker: PhantomData }
    }
}

impl<T: FromSegment> Endpoint for ExtractPathOptional<T> {
    type Output = (Option<T>,);

    type Task = Immediate<(Option<T>,)>;

    open spec fn wf(&self) -> bool {
        true
    }

    open spec fn takes_body(&self) -> bool {
        false
    }

    open spec fn matches(&self, input: &Input, pos: nat) -> bool {
        true
    }

    open spec fn position_after(&self, input: &Input, pos: nat) -> nat {
        if pos < input.spec_segments().len() {
            (pos + 1) as nat
        } else {
            pos
        }
    }

    open spec fn produces(&self, input: &Input, pos: nat, task: &Self::Task) -> bool {
        &&& task.outcome matches Some(Ok(output))
        &&& if pos < input.spec_segments().len() && T::decodable(
            input.spec_segments()[pos as int],
        ) {
            output.0 matches Some(value) && T::decodes(input.spec_segments()[pos as int], &value)
        } else {
            output.0 is None
        }
    }

    fn apply(&self, cx: &mut ApplyContext) -> (r: Option<Self::Task>) {
        broadcast use ApplyContext::lemma_at_pos;

        let _ = cx.position();
        let decoded = match cx.peek() {
            Some(segment) => T::from_segment(segment.as_str()),
            None => {
                return Some(ready((None,)));
            },
        };
        cx.advance(1);
        match decoded {
            Ok(value) => Some(ready((Some(value),))),
            Err(_) => Some(ready((None,))),
        }
    }
}

/// The segments of `input` that are left when `pos` are consumed.
pub open spec fn rest_of(input: &Input, pos: nat) -> Seq<Seq<char>> {
    input.spec_segments().skip(pos as int)
}

/// Where the cursor stands after an endpoint has consumed all the segments.
pub open spec fn end_of(input: &Input, pos: nat) -> nat {
    if pos <= input.spec_segments().len() {
        input.spec_segments().len()
    } else {
        pos
    }
}

/// Whether `task` yields the value of the segments of `input` that are left.
pub open spec fn yields_rest<T: FromSegments>(input: &Input, pos: nat, task: &Immediate<(T,)>) -> bool {
    task.outcome matches Some(Ok(output)) && T::decodes(rest_of(input, pos), &output.0)
}

/// Consumes the segments that are left and decodes them into a `T`. Hands out nothing
/// where they do not decode.
pub fn extract_rest<T: FromSegments>(cx: &mut ApplyContext) -> (r: Option<Immediate<(T,)>>)
    ensures
        r is Some <==> T::decodable(rest_of(&old(cx).request(), old(cx).pos())),
        *final(cx) == old(cx).at(end_of(&old(cx).request(), old(cx).pos())),
        final(cx).request() == old(cx).request(),
        final(cx).pos() == old(cx).segments().len(),
        old(cx).pos() <= final(cx).pos(),
        r matches Some(task) ==> yields_rest::<T>(&old(cx).request(), old(cx).pos(), &task),
{
    broadcast use ApplyContext::lemma_at_pos;

    let pos = cx.position();
    let left = cx.remaining();
    let decoded = T::from_segments(cx.input().segments(), pos);
    cx.advance(left);
    match decoded {
        Ok(value) => Some(ready((value,))),
        Err(_) => None,
    }
}

/// An endpoint that decodes all the segments that are left, and declines a request whose
/// segments do not decode. The segments are consumed all the same.
#[derive(Debug)]
pub struct ExtractPaths<T> {
    pub _marker: PhantomData<T>,
}

/// The endpoint that decodes the segments that are left into a `T`.
pub fn paths<T: FromSegments>() -> (r: ExtractPaths<T>)
    ensures
        r == (ExtractPaths::<T> { _marker: PhantomData }),
{
    ExtractPaths { _marker: PhantomData }
}

impl<T> Clone for ExtractPaths<T> {
    fn clone(&self) -> (r: Self)
        ensures
            r == *self,
    {
        ExtractPaths { _marker: PhantomData }
    }
}

impl<T: FromSegments> Endpoint for ExtractPaths<T> {
    type Output = (T,);

    type Task = Immediate<(T,)>;

    open spec fn wf(&self) -> bool {
        true
    }

    open spec fn takes_body(&self) -> bool {
        false
    }

    open spec fn matches(&self, input: &Input, pos: nat) -> bool {
        T::decodable(rest_of(input, pos))
    }

    /// No segment is left unconsumed, whether or not the segments decode.
    open spec fn position_after(&self, input: &Input, pos: nat) -> nat {
        end_of(input, pos)
    }

    open spec fn produces(&self, input: &Input, pos: nat, task: &Self::Task) -> bool {
        yields_rest::<T>(input, pos, task)
    }

    fn apply(&self, cx: &mut ApplyContext) -> (r: Option<Self::Task>) {
        let _ = cx.position();
        extract_rest::<T>(cx)
    }
}

/// An endpoint that decodes all the segments that are left, and takes every request: where
/// the segments do not decode, its task fails with a bad request.
#[derive(Debug)]
pub struct ExtractPathsRequired<T> {
    pub _marker: PhantomData<T>,
}

/// The endpoint that asks for remaining segments that decode into a `T`.
pub fn paths_req<T: FromSegments>() -> (r: ExtractPathsRequired<T>)
    ensures
        r == (ExtractPathsRequired::<T> { _marker: PhantomData }),
{
    ExtractPathsRequired { _marker: PhantomData }
}

impl<T> Clone for ExtractPathsRequired<T> {
    fn clone(&self) -> (r: Self)
        ensures
            r == *self,
    {
        ExtractPathsRequired { _marker: PhantomData }
    }
}

/// Whether `e` is the bad request that stands for the failure to decode the segments
/// `segments` into a `T`.
pub open spec fn is_bad_segments<T: FromSegments>(segments: Seq<Seq<char>>, e: &Error) -> bool {
    &&& e.status() == StatusCode::numbered(400)
    &&& exists|cause: T::Error|
        T::rejects(segments, &cause) && e.text() == #[trigger] cause.spec_description()
}

impl<T: FromSegments> Endpoint for ExtractPathsRequired<T> {
    type Output = (T,);

    type Task = Immediate<(T,)>;

    open spec fn wf(&self) -> bool {
        true
    }

    open spec fn takes_body(&self) -> bool {
        false
    }

    open spec fn matches(&self, input: &Input, pos: nat) -> bool {
        true
    }

    open spec fn position_after(&self, input: &Input, pos: nat) -> nat {
        end_of(input, pos)
    }

    open spec fn produces(&self, input: &Input, pos: nat, task: &Self::Task) -> bool {
        if T::decodable(rest_of(input, pos)) {
            task.outcome matches Some(Ok(output)) && T::decodes(rest_of(input, pos), &output.0)
        } else {
            task.outcome matches Some(Err(e)) && is_bad_segments::<T>(rest_of(input, pos), &e)
        }
    }

    fn apply(&self, cx: &mut ApplyContext) -> (r: Option<Self::Task>) {

        let pos = cx.position();
        let left = cx.remaining();
        let decoded = T::from_segments(cx.input().segments(), pos);
        cx.advance(left);
        match decoded {
            Ok(value) => Some(ready((value,))),
            Err(e) => Some(failed(Error::from_http(&BadRequest::new(e)))),
        }
    }
}

/// An endpoint that decodes all the segments that are left, and takes every request: where
/// the segments do not decode, its task yields `None`.
#[derive(Debug)]
pub struct ExtractPathsOptional<T> {
    pub _marker: PhantomData<T>,
}

/// The endpoint that decodes the segments that are left into a `T` if it can.
pub fn paths_opt<T: FromSegments>() -> (r: ExtractPathsOptional<T>)
    ensures
        r == (ExtractPathsOptional::<T> { _marker: PhantomData }),
{
    ExtractPathsOptional { _marker: PhantomData }
}

impl<T> Clone for ExtractPathsOptional<T> {
    fn clone(&self) -> (r: Self)
        ensures
            r == *self,
    {
        ExtractPathsOptional { _marker: PhantomData }
    }
}

impl<T: FromSegments> Endpoint for ExtractPathsOptional<T> {
    type Output = (Option<T>,);

    type Task = Immediate<(Option<T>,)>;

    open spec fn wf(&self) -> bool {
        true
    }

    open spec fn takes_body(&self) -> bool {
        false
    }

    open spec fn matches(&self, input: &Input, pos: nat) -> bool {
        true
    }

    open spec fn position_after(&self, input: &Input, pos: nat) -> nat {
        end_of(input, pos)
    }

    open spec fn produces(&self, input: &Input, pos: nat, task: &Self::Task) -> bool {
        &&& task.outcome matches Some(Ok(output))
        &&& if T::decodable(rest_of(input, pos)) {
            output.0 matches Some(value) && T::decodes(rest_of(input, pos), &value)
        } else {
            output.0 is None
        }
    }

    fn apply(&self, cx: &mut ApplyContext) -> (r: Option<Self::Task>) {

        let pos = cx.position();
        let left = cx.remaining();
        let decoded = T::from_segments(cx.input().segments(), pos);
        cx.advance(left);
        match decoded {
            Ok(value) => Some(ready((Some(value),))),
            Err(_) => Some(ready((None,))),
        }
    }
}

} // verus!
