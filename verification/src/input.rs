//! The request as the endpoints see it: method, path segments, query, header fields and the
//! handle of the body.

use vstd::prelude::*;
use vstd::utf8::{decode_utf8, encode_utf8, valid_utf8};
use crate::error::{bad_request, Error, StatusCode};
use crate::headers::{appended, no_fields, Field, Fields, Headers};
use crate::text::{find, first_index, split, split_on};

verus! {

/// The method of a request: one of the nine that have a name of their own here, or any
/// other, by the name that the request gives it.
#[derive(Clone, Debug, PartialEq, Eq)]
pub enum Method {
    Get,
    Post,
    Put,
    Delete,
    Head,
    Options,
    Connect,
    Patch,
    Trace,
    Extension(String),
}

impl Method {
    /// The name of the method, as a request writes it.
    pub open spec fn token(&self) -> Seq<char> {
        match self {
            Method::Get => "GET"@,
            Method::Post => "POST"@,
            Method::Put => "PUT"@,
            Method::Delete => "DELETE"@,
            Method::Head => "HEAD"@,
            Method::Options => "OPTIONS"@,
            Method::Connect => "CONNECT"@,
            Method::Patch => "PATCH"@,
            Method::Trace => "TRACE"@,
            Method::Extension(name) => name@,
        }
    }

    /// The name of the method, as a request writes it.
    pub fn as_str(&self) -> (r: &str)
        ensures
            r@ == self.token(),
    {
        match self {
            Method::Get => "GET",
            Method::Post => "POST",
            Method::Put => "PUT",
            Method::Delete => "DELETE",
            Method::Head => "HEAD",
            Method::Options => "OPTIONS",
            Method::Connect => "CONNECT",
            Method::Patch => "PATCH",
            Method::Trace => "TRACE",
            Method::Extension(name) => name.as_str(),
        }
    }

    /// Whether this is the method `other`: the two have the same name.
    pub fn is(&self, other: &Method) -> (r: bool)
        ensures
            r == (self.token() == other.token()),
    {
        self.as_str().to_owned() == other.as_str().to_owned()
    }
}

/// The handle of a request's body. A request has one, and it can be taken once.
#[derive(Debug)]
pub struct ReqBody {
    _priv: (),
}

/// The value of a hexadecimal digit given as a byte of text.
pub open spec fn hex_value(b: u8) -> Option<u8> {
    if 0x30 <= b <= 0x39 {
        Some((b - 0x30) as u8)
    } else if 0x41 <= b <= 0x46 {
        Some((b - 0x41 + 10) as u8)
    } else if 0x61 <= b <= 0x66 {
        Some((b - 0x61 + 10) as u8)
    } else {
        None
    }
}

/// `s` with each `%` that two hexadecimal digits follow replaced, together with the digits,
/// by the byte that the digits denote. Any other `%` stays.
pub open spec fn percent_decoded(s: Seq<u8>) -> Seq<u8>
    decreases s.len(),
{
    if s.len() == 0 {
        s
    } else if s[0] == 0x25 && s.len() >= 3 && hex_value(s[1]) is Some && hex_value(s[2]) is Some {
        seq![(hex_value(s[1])->0 * 16 + hex_value(s[2])->0) as u8] + percent_decoded(
            s.subrange(3, s.len() as int),
        )
    } else {
        seq![s[0]] + percent_decoded(s.subrange(1, s.len() as int))
    }
}

/// The text of a segment written as `raw` in a path: `raw` percent-decoded, or `raw` itself
/// where the decoded bytes are no UTF-8.
pub open spec fn segment_text(raw: Seq<char>) -> Seq<char> {
    let bytes = percent_decoded(encode_utf8(raw));
    if valid_utf8(bytes) {
        decode_utf8(bytes)
    } else {
        raw
    }
}

/// The segments of a path as written. A `/` at the start opens no segment and a `/` at the
/// end closes the last one; between two neighbouring slashes stands an empty segment.
pub open spec fn path_segments(path: Seq<char>) -> Seq<Seq<char>> {
    let p = if path.len() > 0 && path[0] == '/' {
        path.subrange(1, path.len() as int)
    } else {
        path
    };
    let parts = split_on(p, '/');
    if parts.last().len() == 0 {
        parts.drop_last()
    } else {
        parts
    }
}

/// The segments of a path, percent-decoded.
pub open spec fn decoded_segments(path: Seq<char>) -> Seq<Seq<char>> {
    path_segments(path).map_values(|raw: Seq<char>| segment_text(raw))
}

/// The name and the value written in one part `pair` of a query: what stands before the
/// first `=`, and what stands after it.
pub open spec fn query_pair(pair: Seq<char>) -> Field {
    let i = first_index(pair, '=');
    if 0 <= i < pair.len() {
        (pair.subrange(0, i), pair.subrange(i + 1, pair.len() as int))
    } else {
        (pair, Seq::empty())
    }
}

/// Whether the pair at `i` is the first of `pairs` with the name `name`, written exactly so.
pub open spec fn is_first_pair(pairs: Seq<Field>, name: Seq<char>, i: int) -> bool {
    &&& 0 <= i < pairs.len()
    &&& pairs[i].0 == name
    &&& forall|j: int| 0 <= j < i ==> (#[trigger] pairs[j]).0 != name
}

/// The value of the first pair of `pairs` with the name `name`, written exactly so.
pub open spec fn pair_value(pairs: Seq<Field>, name: Seq<char>) -> Option<Seq<char>> {
    if exists|i: int| is_first_pair(pairs, name, i) {
        Some(pairs[choose|i: int| is_first_pair(pairs, name, i)].1)
    } else {
        None
    }
}

/// Where the pair at `i` is the first with its name, `pair_value` gives its value.
pub proof fn lemma_pair_value(pairs: Seq<Field>, name: Seq<char>, i: int)
    requires
        is_first_pair(pairs, name, i),
    ensures
        pair_value(pairs, name) == Some(pairs[i].1),
{
    let k = choose|k: int| is_first_pair(pairs, name, k);
    if k < i {
        assert(pairs[k].0 != name);
    } else if i < k {
        assert(pairs[i].0 != name);
    }
}

/// The names and values of a query, whose parts `&` separates.
pub open spec fn query_pairs(query: Seq<char>) -> Seq<Field> {
    split_on(query, '&').map_values(|pair: Seq<char>| query_pair(pair))
}

/// `percent_encoding::percent_decode` followed by `PercentDecode::decode_utf8`: the bytes of
/// `s` are percent-decoded as `percent_decoded` says, and the result is the text that these
/// bytes encode in UTF-8, if they encode one.
#[verifier::external_body]
fn percent_decode(s: &str) -> (r: Option<String>)
    ensures
        r is Some <==> valid_utf8(percent_decoded(encode_utf8(s@))),
        r matches Some(d) ==> d@ == decode_utf8(percent_decoded(encode_utf8(s@))),
{
    match percent_encoding::percent_decode(s.as_bytes()).decode_utf8() {
        Ok(d) => Some(d.into_owned()),
        Err(_) => None,
    }
}

/// The text of a segment written as `raw`.
pub fn decode_segment(raw: &str) -> (r: String)
    ensures
        r@ == segment_text(raw@),
{
    match percent_decode(raw) {
        Some(d) => d,
        None => raw.to_owned(),
    }
}

/// The segments of `path`, percent-decoded.
pub fn split_path(path: &str) -> (segments: Vec<String>)
    ensures
        segments.len() == decoded_segments(path@).len(),
        forall|k: int|
            0 <= k < segments.len() ==> (#[trigger] segments[k])@ == decoded_segments(path@)[k],
{
    let n = path.unicode_len();
    let from: usize = if n > 0 && path.get_char(0) == '/' {
        1
    } else {
        0
    };
    proof {
        assert(path@.subrange(0, n as int) == path@);
    }
    let mut raw = split(path.substring_char(from, n), '/');
    let last = raw.len() - 1;
    if raw[last].as_str().unicode_len() == 0 {
        raw.pop();
    }
    let mut segments: Vec<String> = Vec::new();
    let mut i: usize = 0;
    while i < raw.len()
        invariant
            i <= raw.len(),
            segments.len() == i,
            raw.len() == path_segments(path@).len(),
            forall|k: int| 0 <= k < raw.len() ==> (#[trigger] raw[k])@ == path_segments(path@)[k],
            forall|k: int|
                0 <= k < i ==> (#[trigger] segments[k])@ == decoded_segments(path@)[k],
        decreases raw.len() - i,
    {
        segments.push(decode_segment(raw[i].as_str()));
        i = i + 1;
    }
    segments
}

/// A media type: its type, its subtype and, where it names one, its character set.
#[derive(Debug)]
pub struct MediaType {
    pub type_: String,
    pub subtype: String,
    pub charset: Option<String>,
}

impl MediaType {
    /// The parts as texts.
    pub open spec fn texts(&self) -> (Seq<char>, Seq<char>, Option<Seq<char>>) {
        (
            self.type_@,
            self.subtype@,
            match self.charset {
                Some(charset) => Some(charset@),
                None => None,
            },
        )
    }
}

/// What the text `s` names as a media type, if it names one: the type, the subtype and
/// the value of the parameter `charset`.
pub uninterp spec fn media_type_of(s: Seq<char>) -> Option<
    (Seq<char>, Seq<char>, Option<Seq<char>>),
>;

/// `str::parse` into `mime::Mime`, and the accessors `type_`, `subtype` and `get_param` of
/// the media type: the parts of the text as a media type, or nothing where the text names
/// none.
#[verifier::external_body]
fn parse_media_type(s: &str) -> (r: Option<MediaType>)
    ensures
        r is Some <==> media_type_of(s@) is Some,
        r matches Some(m) ==> media_type_of(s@) == Some(m.texts()),
{
    match s.parse::<mime::Mime>() {
        Ok(m) => Some(
            MediaType {
                type_: m.type_().as_str().to_owned(),
                subtype: m.subtype().as_str().to_owned(),
                charset: m.get_param("charset").map(|c| c.as_str().to_owned()),
            },
        ),
        Err(_) => None,
    }
}

/// Whether `e` says that the header field `content-type` names no media type.
pub open spec fn is_bad_content_type(e: &Error) -> bool {
    e.status() == StatusCode::numbered(400) && e.text() == "invalid content type"@
}

/// The content type of a request whose header field `content-type`, if it has one, was
/// read as `parsed`: the media type that was read, or a bad request where none was.
pub fn checked_content_type(parsed: Option<Option<MediaType>>) -> (r: Result<
    Option<MediaType>,
    Error,
>)
    ensures
        match parsed {
            None => r == Ok::<Option<MediaType>, Error>(None),
            Some(Some(m)) => r == Ok::<Option<MediaType>, Error>(Some(m)),
            Some(None) => r matches Err(e) && is_bad_content_type(&e),
        },
{
    match parsed {
        None => Ok(None),
        Some(Some(m)) => Ok(Some(m)),
        Some(None) => Err(bad_request("invalid content type")),
    }
}

/// A request.
#[derive(Debug)]
pub struct Input {
    method: Method,
    path: String,
    segments: Vec<String>,
    query: Option<String>,
    headers: Headers,
    body_taken: bool,
}

impl Input {
    #[verifier::type_invariant]
    spec fn segments_of_path(&self) -> bool {
        &&& self.segments.len() == decoded_segments(self.path@).len()
        &&& forall|k: int|
            0 <= k < self.segments.len() ==> (#[trigger] self.segments[k])@ == decoded_segments(
                self.path@,
            )[k]
    }

    /// The method of the request.
    pub closed spec fn spec_method(&self) -> Method {
        self.method
    }

    /// The path of the request, as it was written.
    pub closed spec fn spec_path(&self) -> Seq<char> {
        self.path@
    }

    /// The segments of the path, percent-decoded.
    pub closed spec fn spec_segments(&self) -> Seq<Seq<char>> {
        decoded_segments(self.path@)
    }

    /// The query of the request, if it has one.
    pub closed spec fn spec_query(&self) -> Option<Seq<char>> {
        match self.query {
            Some(q) => Some(q@),
            None => None,
        }
    }

    /// The value that the query gives the name `name`.
    pub open spec fn spec_query_value(&self, name: Seq<char>) -> Option<Seq<char>> {
        match self.spec_query() {
            Some(query) => pair_value(query_pairs(query), name),
            None => None,
        }
    }

    /// The header fields of the request.
    pub closed spec fn spec_headers(&self) -> Fields {
        self.headers@
    }

    /// Whether the handle of the body has not been taken yet.
    pub closed spec fn body_present(&self) -> bool {
        !self.body_taken
    }

    /// This request after its body's handle was taken.
    pub closed spec fn without_body(self) -> Input {
        Input { body_taken: true, ..self }
    }

    /// The segments are those of the path.
    pub proof fn lemma_segments(&self)
        ensures
            self.spec_segments() == decoded_segments(self.spec_path()),
            self.without_body().spec_segments() == self.spec_segments(),
            self.without_body().spec_method() == self.spec_method(),
            self.without_body().spec_path() == self.spec_path(),
            self.without_body().spec_query() == self.spec_query(),
            self.without_body().spec_headers() == self.spec_headers(),
            !self.without_body().body_present(),
            !self.body_present() ==> self.without_body() == *self,
    {
    }

    /// A request with the given method and path, without query or header fields, whose
    /// body has not been taken.
    pub fn new(method: Method, path: &str) -> (r: Input)
        ensures
            r.spec_method() == method,
            r.spec_path() == path@,
            r.spec_query() is None,
            r.spec_headers() == no_fields(),
            r.body_present(),
    {
        Input {
            method,
            path: path.to_owned(),
            segments: split_path(path),
            query: None,
            headers: Headers::new(),
            body_taken: false,
        }
    }

    /// This request with the query `query`.
    pub fn with_query(self, query: &str) -> (r: Input)
        ensures
            r.spec_query() == Some(query@),
            r.spec_method() == self.spec_method(),
            r.spec_path() == self.spec_path(),
            r.spec_headers() == self.spec_headers(),
            r.body_present() == self.body_present(),
    {
        proof {
            use_type_invariant(&self);
        }
        Input {
            method: self.method,
            path: self.path,
            segments: self.segments,
            query: Some(query.to_owned()),
            headers: self.headers,
            body_taken: self.body_taken,
        }
    }

    /// This request with the header fields `headers` in place of its own.
    pub fn with_headers(self, headers: Headers) -> (r: Input)
        ensures
            r.spec_headers() == headers@,
            r.spec_method() == self.spec_method(),
            r.spec_path() == self.spec_path(),
            r.spec_query() == self.spec_query(),
            r.body_present() == self.body_present(),
    {
        proof {
            use_type_invariant(&self);
        }
        Input {
            method: self.method,
            path: self.path,
            segments: self.segments,
            query: self.query,
            headers,
            body_taken: self.body_taken,
        }
    }

    /// This request with one more header field, added behind those of its name. A field
    /// that the header fields cannot take is left out.
    pub fn with_header(self, name: &str, value: &str) -> (r: Input)
        ensures
            r.spec_headers() == appended(self.spec_headers(), name@, value@),
            r.spec_method() == self.spec_method(),
            r.spec_path() == self.spec_path(),
            r.spec_query() == self.spec_query(),
            r.body_present() == self.body_present(),
    {
        proof {
            use_type_invariant(&self);
        }
        let mut headers = self.headers;
        headers.append(name, value);
        Input {
            method: self.method,
            path: self.path,
            segments: self.segments,
            query: self.query,
            headers,
            body_taken: self.body_taken,
        }
    }

    pub fn method(&self) -> (r: &Method)
        ensures
            *r == self.spec_method(),
    {
        &self.method
    }

    pub fn path(&self) -> (r: &String)
        ensures
            r@ == self.spec_path(),
    {
        &self.path
    }

    /// The number of segments of the path.
    pub fn segment_count(&self) -> (r: usize)
        ensures
            r == self.spec_segments().len(),
    {
        proof {
            use_type_invariant(self);
        }
        self.segments.len()
    }

    /// The segment at `i`, percent-decoded.
    pub fn segment(&self, i: usize) -> (r: &String)
        requires
            i < self.spec_segments().len(),
        ensures
            r@ == self.spec_segments()[i as int],
    {
        proof {
            use_type_invariant(self);
        }
        &self.segments[i]
    }

    /// The segments of the path, percent-decoded.
    pub fn segments(&self) -> (r: &Vec<String>)
        ensures
            r@.map_values(|s: String| s@) == self.spec_segments(),
    {
        proof {
            use_type_invariant(self);
        }
        &self.segments
    }

    pub fn query(&self) -> (r: Option<&String>)
        ensures
            r is Some <==> self.spec_query() is Some,
            r matches Some(q) ==> self.spec_query() == Some(q@),
    {
        self.query.as_ref()
    }

    /// The value that the query gives the name `name`: that of the first part with this
    /// name.
    pub fn query_value(&self, name: &str) -> (r: Option<String>)
        ensures
            r is Some <==> self.spec_query_value(name@) is Some,
            r matches Some(v) ==> self.spec_query_value(name@) == Some(v@),
    {
        let query = match &self.query {
            Some(q) => q,
            None => {
                return None;
            },
        };
        let wanted = name.to_owned();
        let parts = split(query.as_str(), '&');
        let ghost pairs = query_pairs(query@);
        let mut i: usize = 0;
        while i < parts.len()
            invariant
                wanted@ == name@,
                i <= parts.len(),
                pairs == query_pairs(query@),
                self.spec_query() == Some(query@),
                parts.len() == pairs.len(),
                forall|k: int| 0 <= k < parts.len() ==> query_pair((#[trigger] parts[k])@) == pairs[k],
                forall|k: int| 0 <= k < i ==> (#[trigger] pairs[k]).0 != name@,
            decreases parts.len() - i,
        {
            let part = parts[i].as_str();
            let n = part.unicode_len();
            let at = find(part, '=', 0);
            proof {
                assert(part@.subrange(0, n as int) == part@);
            }
            let key = part.substring_char(0, at).to_owned();
            if key == wanted {
                let value = if at < n {
                    part.substring_char(at + 1, n).to_owned()
                } else {
                    String::new()
                };
                proof {
                    lemma_pair_value(pairs, name@, i as int);
                }
                return Some(value);
            }
            i = i + 1;
        }
        None
    }

    pub fn headers(&self) -> (r: &Headers)
        ensures
            r@ == self.spec_headers(),
    {
        &self.headers
    }

    /// The media type that the header field `content-type` names, if the request has that
    /// field. A field that names no media type is a bad request.
    pub fn content_type(&self) -> (r: Result<Option<MediaType>, Error>)
        ensures
            match crate::headers::value_of(self.spec_headers(), "content-type"@) {
                None => r == Ok::<Option<MediaType>, Error>(None),
                Some(raw) => match media_type_of(raw) {
                    Some(parts) => r matches Ok(Some(m)) && m.texts() == parts,
                    None => r matches Err(e) && is_bad_content_type(&e),
                },
            },
    {
        let parsed = match self.headers.get("content-type") {
            Some(raw) => Some(parse_media_type(raw.as_str())),
            None => None,
        };
        checked_content_type(parsed)
    }

    /// Whether the handle of the body has not been taken yet.
    pub fn has_body(&self) -> (r: bool)
        ensures
            r == self.body_present(),
    {
        !self.body_taken
    }

    /// Takes the handle of the body, if it has not been taken yet.
    pub fn body(&mut self) -> (r: Option<ReqBody>)
        ensures
            r is Some <==> old(self).body_present(),
            *final(self) == old(self).without_body(),
    {
        proof {
            use_type_invariant(&*self);
        }
        if self.body_taken {
            None
        } else {
            self.body_taken = true;
            Some(ReqBody { _priv: () })
        }
    }
}

} // verus!
