//! Decoding the text of path segments into values.

use vstd::prelude::*;
use crate::error::{HttpError, StatusCode};

verus! {

/// A value that the text of one segment can be decoded into.
pub trait FromSegment: Sized {
    type Error: HttpError;

    /// Whether the text `s` decodes into a value.
    spec fn decodable(s: Seq<char>) -> bool;

    /// Whether `value` is what the text `s` decodes into.
    spec fn decodes(s: Seq<char>, value: &Self) -> bool;

    /// Whether `error` is what decoding the text `s` fails with.
    spec fn rejects(s: Seq<char>, error: &Self::Error) -> bool;

    /// Decodes the text of a segment.
    fn from_segment(s: &str) -> (r: Result<Self, Self::Error>)
        ensures
            r is Ok <==> Self::decodable(s@),
            r matches Ok(value) ==> Self::decodes(s@, &value),
            r matches Err(error) ==> Self::rejects(s@, &error),
    ;
}

/// A value that the texts of the remaining segments can be decoded into.
pub trait FromSegments: Sized {
    type Error: HttpError;

    /// Whether the segments `segments` decode into a value.
    spec fn decodable(segments: Seq<Seq<char>>) -> bool;

    /// Whether `value` is what the segments `segments` decode into.
    spec fn decodes(segments: Seq<Seq<char>>, value: &Self) -> bool;

    /// Whether `error` is what decoding the segments `segments` fails with.
    spec fn rejects(segments: Seq<Seq<char>>, error: &Self::Error) -> bool;

    /// Decodes the segments of `segments` from `from` on.
    fn from_segments(segments: &Vec<String>, from: usize) -> (r: Result<Self, Self::Error>)
        requires
            from <= segments.len(),
        ensures
            r is Ok <==> Self::decodable(texts(segments@).skip(from as int)),
            r matches Ok(value) ==> Self::decodes(texts(segments@).skip(from as int), &value),
            r matches Err(error) ==> Self::rejects(texts(segments@).skip(from as int), &error),
    ;
}

/// The texts of `segments`.
pub open spec fn texts(segments: Seq<String>) -> Seq<Seq<char>> {
    segments.map_values(|s: String| s@)
}

/// The segments `segments` written as one path: a `/` between each two.
pub open spec fn joined(segments: Seq<Seq<char>>) -> Seq<char>
    decreases segments.len(),
{
    if segments.len() == 0 {
        Seq::empty()
    } else if segments.len() == 1 {
        segments[0]
    } else {
        joined(segments.drop_last()) + seq!['/'] + segments.last()
    }
}

/// The error of a decoding that cannot fail: no function makes a value of it.
#[derive(Debug)]
pub struct Never {
    _priv: (),
}

impl HttpError for Never {
    open spec fn spec_status_code(&self) -> StatusCode {
        StatusCode::numbered(500)
    }

    open spec fn spec_description(&self) -> Seq<char> {
        Seq::empty()
    }

    fn status_code(&self) -> (r: StatusCode) {
        StatusCode::internal_server_error()
    }

    fn description(&self) -> (r: String) {
        String::new()
    }
}

/// The text of a segment is no number of the type asked for.
#[derive(Debug)]
pub struct ParseNumberError;

impl HttpError for ParseNumberError {
    open spec fn spec_status_code(&self) -> StatusCode {
        StatusCode::numbered(400)
    }

    open spec fn spec_description(&self) -> Seq<char> {
        "invalid number in the path"@
    }

    fn status_code(&self) -> (r: StatusCode) {
        StatusCode::bad_request()
    }

    fn description(&self) -> (r: String) {
        "invalid number in the path".to_owned()
    }
}

/// The value of a decimal digit.
pub open spec fn digit_value(c: char) -> Option<nat> {
    if '0' <= c <= '9' {
        Some((c as u32 - '0' as u32) as nat)
    } else {
        None
    }
}

/// Whether `s` holds decimal digits only.
pub open spec fn all_digits(s: Seq<char>) -> bool {
    forall|i: int| 0 <= i < s.len() ==> digit_value(#[trigger] s[i]) is Some
}

/// The number that the decimal digits `s` write.
pub open spec fn decimal_value(s: Seq<char>) -> nat
    decreases s.len(),
{
    if s.len() == 0 {
        0
    } else {
        decimal_value(s.drop_last()) * 10 + digit_value(s.last()).unwrap_or(0)
    }
}

/// The number that `s` writes: decimal digits, at least one, behind an optional sign. A
/// `-` is a sign only where `signed` holds.
pub open spec fn number(s: Seq<char>, signed: bool) -> Option<int> {
    let negative = signed && s.len() > 0 && s[0] == '-';
    let digits = if s.len() > 0 && (s[0] == '+' || negative) {
        s.drop_first()
    } else {
        s
    };
    if digits.len() > 0 && all_digits(digits) {
        Some(
            if negative {
                -(decimal_value(digits) as int)
            } else {
                decimal_value(digits) as int
            },
        )
    } else {
        None
    }
}

/// The number that `s` writes, if it is one that lies between `low` and `high`.
pub open spec fn number_within(s: Seq<char>, signed: bool, low: int, high: int) -> Option<int> {
    match number(s, signed) {
        Some(n) => if low <= n <= high {
            Some(n)
        } else {
            None
        },
        None => None,
    }
}

/// `str::parse` into `u64`: the text must be decimal digits behind an optional `+`, and
/// the number they write must fit.
#[verifier::external_body]
fn parse_u64(s: &str) -> (r: Option<u64>)
    ensures
        r is Some <==> number_within(s@, false, 0, u64::MAX as int) is Some,
        r matches Some(n) ==> number_within(s@, false, 0, u64::MAX as int) == Some(n as int),
{
    s.parse::<u64>().ok()
}

/// `str::parse` into `i64`: the text must be decimal digits behind an optional `+` or `-`,
/// and the number they write must fit.
#[verifier::external_body]
fn parse_i64(s: &str) -> (r: Option<i64>)
    ensures
        r is Some <==> number_within(s@, true, i64::MIN as int, i64::MAX as int) is Some,
        r matches Some(n) ==> number_within(s@, true, i64::MIN as int, i64::MAX as int) == Some(
            n as int,
        ),
{
    s.parse::<i64>().ok()
}

impl FromSegment for String {
    type Error = Never;

    open spec fn decodable(s: Seq<char>) -> bool {
        true
    }

    open spec fn decodes(s: Seq<char>, value: &String) -> bool {
        value@ == s
    }

    open spec fn rejects(s: Seq<char>, error: &Never) -> bool {
        false
    }

    fn from_segment(s: &str) -> (r: Result<String, Never>) {
        Ok(s.to_owned())
    }
}

impl FromSegment for u64 {
    type Error = ParseNumberError;

    open spec fn decodable(s: Seq<char>) -> bool {
        number_within(s, false, 0, u64::MAX as int) is Some
    }

    open spec fn decodes(s: Seq<char>, value: &u64) -> bool {
        number_within(s, false, 0, u64::MAX as int) == Some(*value as int)
    }

    open spec fn rejects(s: Seq<char>, error: &ParseNumberError) -> bool {
        true
    }

    fn from_segment(s: &str) -> (r: Result<u64, ParseNumberError>) {
        match parse_u64(s) {
            Some(n) => Ok(n),
            None => Err(ParseNumberError),
        }
    }
}

impl FromSegment for u32 {
    type Error = ParseNumberError;

    open spec fn decodable(s: Seq<char>) -> bool {
        number_within(s, false, 0, u32::MAX as int) is Some
    }

    open spec fn decodes(s: Seq<char>, value: &u32) -> bool {
        number_within(s, false, 0, u32::MAX as int) == Some(*value as int)
    }

    open spec fn rejects(s: Seq<char>, error: &ParseNumberError) -> bool {
        true
    }

    fn from_segment(s: &str) -> (r: Result<u32, ParseNumberError>) {
        match parse_u64(s) {
            Some(n) => if n <= u32::MAX as u64 {
                Ok(n as u32)
            } else {
                Err(ParseNumberError)
            },
            None => Err(ParseNumberError),
        }
    }
}

impl FromSegment for u16 {
    type Error = ParseNumberError;

    open spec fn decodable(s: Seq<char>) -> bool {
        number_within(s, false, 0, u16::MAX as int) is Some
    }

    open spec fn decodes(s: Seq<char>, value: &u16) -> bool {
        number_within(s, false, 0, u16::MAX as int) == Some(*value as int)
    }

    open spec fn rejects(s: Seq<char>, error: &ParseNumberError) -> bool {
        true
    }

    fn from_segment(s: &str) -> (r: Result<u16, ParseNumberError>) {
        match parse_u64(s) {
            Some(n) => if n <= u16::MAX as u64 {
                Ok(n as u16)
            } else {
                Err(ParseNumberError)
            },
            None => Err(ParseNumberError),
        }
    }
}

impl FromSegment for u8 {
    type Error = ParseNumberError;

    open spec fn decodable(s: Seq<char>) -> bool {
        number_within(s, false, 0, u8::MAX as int) is Some
    }

    open spec fn decodes(s: Seq<char>, value: &u8) -> bool {
        number_within(s, false, 0, u8::MAX as int) == Some(*value as int)
    }

    open spec fn rejects(s: Seq<char>, error: &ParseNumberError) -> bool {
        true
    }

    fn from_segment(s: &str) -> (r: Result<u8, ParseNumberError>) {
        match parse_u64(s) {
            Some(n) => if n <= u8::MAX as u64 {
                Ok(n as u8)
            } else {
                Err(ParseNumberError)
            },
            None => Err(ParseNumberError),
        }
    }
}

impl FromSegment for i64 {
    type Error = ParseNumberError;

    open spec fn decodable(s: Seq<char>) -> bool {
        number_within(s, true, i64::MIN as int, i64::MAX as int) is Some
    }

    open spec fn decodes(s: Seq<char>, value: &i64) -> bool {
        number_within(s, true, i64::MIN as int, i64::MAX as int) == Some(*value as int)
    }

    open spec fn rejects(s: Seq<char>, error: &ParseNumberError) -> bool {
        true
    }

    fn from_segment(s: &str) -> (r: Result<i64, ParseNumberError>) {
        match parse_i64(s) {
            Some(n) => Ok(n),
            None => Err(ParseNumberError),
        }
    }
}

impl FromSegment for i32 {
    type Error = ParseNumberError;

    open spec fn decodable(s: Seq<char>) -> bool {
        number_within(s, true, i32::MIN as int, i32::MAX as int) is Some
    }

    open spec fn decodes(s: Seq<char>, value: &i32) -> bool {
        number_within(s, true, i32::MIN as int, i32::MAX as int) == Some(*value as int)
    }

    open spec fn rejects(s: Seq<char>, error: &ParseNumberError) -> bool {
        true
    }

    fn from_segment(s: &str) -> (r: Result<i32, ParseNumberError>) {
        match parse_i64(s) {
            Some(n) => if i32::MIN as i64 <= n && n <= i32::MAX as i64 {
                Ok(n as i32)
            } else {
                Err(ParseNumberError)
            },
            None => Err(ParseNumberError),
        }
    }
}

impl FromSegment for i16 {
    type Error = ParseNumberError;

    open spec fn decodable(s: Seq<char>) -> bool {
        number_within(s, true, i16::MIN as int, i16::MAX as int) is Some
    }

    open spec fn decodes(s: Seq<char>, value: &i16) -> bool {
        number_within(s, true, i16::MIN as int, i16::MAX as int) == Some(*value as int)
    }

    open spec fn rejects(s: Seq<char>, error: &ParseNumberError) -> bool {
        true
    }

    fn from_segment(s: &str) -> (r: Result<i16, ParseNumberError>) {
        match parse_i64(s) {
            Some(n) => if i16::MIN as i64 <= n && n <= i16::MAX as i64 {
                Ok(n as i16)
            } else {
                Err(ParseNumberError)
            },
            None => Err(ParseNumberError),
        }
    }
}

impl FromSegment for i8 {
    type Error = ParseNumberError;

    open spec fn decodable(s: Seq<char>) -> bool {
        number_within(s, true, i8::MIN as int, i8::MAX as int) is Some
    }

    open spec fn decodes(s: Seq<char>, value: &i8) -> bool {
        number_within(s, true, i8::MIN as int, i8::MAX as int) == Some(*value as int)
    }

    open spec fn rejects(s: Seq<char>, error: &ParseNumberError) -> bool {
        true
    }

    fn from_segment(s: &str) -> (r: Result<i8, ParseNumberError>) {
        match parse_i64(s) {
            Some(n) => if i8::MIN as i64 <= n && n <= i8::MAX as i64 {
                Ok(n as i8)
            } else {
                Err(ParseNumberError)
            },
            None => Err(ParseNumberError),
        }
    }
}

impl<T: FromSegment> FromSegment for Option<T> {
    type Error = Never;

    open spec fn decodable(s: Seq<char>) -> bool {
        true
    }

    open spec fn decodes(s: Seq<char>, value: &Option<T>) -> bool {
        if T::decodable(s) {
            value matches Some(inner) && T::decodes(s, &inner)
        } else {
            value is None
        }
    }

    open spec fn rejects(s: Seq<char>, error: &Never) -> bool {
        false
    }

    fn from_segment(s: &str) -> (r: Result<Option<T>, Never>) {
        match T::from_segment(s) {
            Ok(value) => Ok(Some(value)),
            Err(_) => Ok(None),
        }
    }
}

impl<T: FromSegment> FromSegment for Result<T, T::Error> {
    type Error = Never;

    open spec fn decodable(s: Seq<char>) -> bool {
        true
    }

    open spec fn decodes(s: Seq<char>, value: &Result<T, T::Error>) -> bool {
        match value {
            Ok(inner) => T::decodable(s) && T::decodes(s, inner),
            Err(error) => !T::decodable(s) && T::rejects(s, error),
        }
    }

    open spec fn rejects(s: Seq<char>, error: &Never) -> bool {
        false
    }

    fn from_segment(s: &str) -> (r: Result<Result<T, T::Error>, Never>) {
        Ok(T::from_segment(s))
    }
}

impl<T: FromSegment> FromSegments for Vec<T> {
    type Error = T::Error;

    open spec fn decodable(segments: Seq<Seq<char>>) -> bool {
        forall|i: int| 0 <= i < segments.len() ==> T::decodable(#[trigger] segments[i])
    }

    open spec fn decodes(segments: Seq<Seq<char>>, value: &Vec<T>) -> bool {
        &&& value.len() == segments.len()
        &&& forall|i: int| 0 <= i < segments.len() ==> T::decodes(segments[i], #[trigger] &value[i])
    }

    /// The failure is that of the first segment that does not decode.
    open spec fn rejects(segments: Seq<Seq<char>>, error: &T::Error) -> bool {
        exists|i: int|
            0 <= i < segments.len() && T::rejects(#[trigger] segments[i], error) && forall|k: int|
                0 <= k < i ==> T::decodable(#[trigger] segments[k])
    }

    fn from_segments(segments: &Vec<String>, from: usize) -> (r: Result<Vec<T>, T::Error>) {
        let ghost rest = texts(segments@).skip(from as int);
        let mut values: Vec<T> = Vec::new();
        let mut i: usize = from;
        while i < segments.len()
            invariant
                from <= i <= segments.len(),
                rest == texts(segments@).skip(from as int),
                values.len() == i - from,
                forall|k: int| 0 <= k < i - from ==> T::decodable(#[trigger] rest[k]),
                forall|k: int| 0 <= k < i - from ==> T::decodes(rest[k], #[trigger] &values[k]),
            decreases segments.len() - i,
        {
            match T::from_segment(segments[i].as_str()) {
                Ok(value) => {
                    values.push(value);
                },
                Err(e) => {
                    proof {
                        assert(T::rejects(rest[i - from], &e));
                    }
                    return Err(e);
                },
            }
            i = i + 1;
        }
        Ok(values)
    }
}

impl FromSegments for String {
    type Error = Never;

    open spec fn decodable(segments: Seq<Seq<char>>) -> bool {
        true
    }

    open spec fn decodes(segments: Seq<Seq<char>>, value: &String) -> bool {
        value@ == joined(segments)
    }

    open spec fn rejects(segments: Seq<Seq<char>>, error: &Never) -> bool {
        false
    }

    fn from_segments(segments: &Vec<String>, from: usize) -> (r: Result<String, Never>) {
        Ok(join(segments, from))
    }
}

/// The segments of `segments` from `from` on, written as one path.
pub fn join(segments: &Vec<String>, from: usize) -> (r: String)
    requires
        from <= segments.len(),
    ensures
        r@ == joined(texts(segments@).skip(from as int)),
{
    let ghost rest = texts(segments@).skip(from as int);
    let mut path = String::new();
    let mut i: usize = from;
    while i < segments.len()
        invariant
            from <= i <= segments.len(),
            rest == texts(segments@).skip(from as int),
            path@ == joined(rest.take(i - from)),
        decreases segments.len() - i,
    {
        proof {
            let now = rest.take(i - from + 1);
            assert(now.drop_last() == rest.take(i - from));
        }
        if i > from {
            path.append("/");
            proof {
                reveal_strlit("/");
            }
        }
        path.append(segments[i].as_str());
        i = i + 1;
    }
    proof {
        assert(rest.take(rest.len() as int) == rest);
    }
    path
}

} // verus!
