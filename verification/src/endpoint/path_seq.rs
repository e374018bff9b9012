//! Endpoints that decode segments of the path, and decline where the text is of another
//! type.

use std::marker::PhantomData;
use vstd::prelude::*;
use crate::context::ApplyContext;
use crate::decode::{FromSegment, FromSegments};
use crate::endpoint::path::{
    after_next, end_of, extract_next, extract_rest, next_decodes, rest_of, yields_next,
    yields_rest,
};
use crate::endpoint::Endpoint;
use crate::input::Input;
use crate::task::Immediate;

verus! {

/// An endpoint that decodes the next segment into a `T` and consumes it.
#[derive(Debug)]
pub struct Path<T> {
    pub _marker: PhantomData<T>,
}

impl<T> Clone for Path<T> {
    fn clone(&self) -> (r: Self)
        ensures
            r == *self,
    {
        Path { _marker: PhantomData }
    }
}

/// The endpoint that stands for one element of the path.
pub fn path<T: FromSegment>() -> (r: Path<T>)
    ensures
        r == (Path::<T> { _marker: PhantomData }),
{
    Path { _marker: PhantomData }
}

impl<T: FromSegment> Endpoint for Path<T> {
    type Output = (T,);

    type Task = Immediate<(T,)>;

    open spec fn wf(&self) -> bool {
        true
    }

    open spec fn takes_body(&self) -> bool {
        false
    }

    open spec fn matches(&self, input: &Input, pos: nat) -> bool {
        next_decodes::<T>(input, pos)
    }

    open spec fn position_after(&self, input: &Input, pos: nat) -> nat {
        after_next(input, pos)
    }

    open spec fn produces(&self, input: &Input, pos: nat, task: &Self::Task) -> bool {
        yields_next::<T>(input, pos, task)
    }

    fn apply(&self, cx: &mut ApplyContext) -> (r: Option<Self::Task>) {
        let _ = cx.position();
        extract_next::<T>(cx)
    }
}

/// An endpoint that decodes every segment that is left into a `T` and collects the values
/// in an `I`. Where no segment is left, the collection is empty.
#[derive(Debug)]
pub struct PathSeq<I, T> {
    pub _marker: PhantomData<(I, T)>,
}

impl<I, T> Clone for PathSeq<I, T> {
    fn clone(&self) -> (r: Self)
        ensures
            r == *self,
    {
        PathSeq { _marker: PhantomData }
    }
}

/// The endpoint that stands for the sequence of the remaining elements of the path.
pub fn path_seq<I, T>() -> (r: PathSeq<I, T>) where I: FromSegments, T: FromSegment
    ensures
        r == (PathSeq::<I, T> { _marker: PhantomData }),
{
    PathSeq { _marker: PhantomData }
}

/// `PathSeq` that collects into a vector.
pub type PathVec<T> = PathSeq<Vec<T>, T>;

/// The same as `path_seq::<Vec<T>, T>()`.
pub fn path_vec<T: FromSegment>() -> (r: PathVec<T>)
    ensures
        r == (PathSeq::<Vec<T>, T> { _marker: PhantomData }),
{
    PathSeq { _marker: PhantomData }
}

impl<I: FromSegments, T: FromSegment> Endpoint for PathSeq<I, T> {
    type Output = (I,);

    type Task = Immediate<(I,)>;

    open spec fn wf(&self) -> bool {
        true
    }

    open spec fn takes_body(&self) -> bool {
        false
    }

    open spec fn matches(&self, input: &Input, pos: nat) -> bool {
        I::decodable(rest_of(input, pos))
    }

    open spec fn position_after(&self, input: &Input, pos: nat) -> nat {
        end_of(input, pos)
    }

    open spec fn produces(&self, input: &Input, pos: nat, task: &Self::Task) -> bool {
        yields_rest::<I>(input, pos, task)
    }

    fn apply(&self, cx: &mut ApplyContext) -> (r: Option<Self::Task>) {
        let _ = cx.position();
        extract_rest::<I>(cx)
    }
}

/// A type whose endpoint for one element of the path has a name of its own.
pub trait PathConst: FromSegment {
    /// The endpoint that decodes the next segment into this type.
    fn path_const() -> (r: Path<Self>)
        ensures
            r == (Path::<Self> { _marker: PhantomData }),
    ;
}

impl PathConst for i8 {
    fn path_const() -> (r: Path<i8>) {
        Path { _marker: PhantomData }
    }
}

impl PathConst for u8 {
    fn path_const() -> (r: Path<u8>) {
        Path { _marker: PhantomData }
    }
}

impl PathConst for i16 {
    fn path_const() -> (r: Path<i16>) {
        Path { _marker: PhantomData }
    }
}

impl PathConst for u16 {
    fn path_const() -> (r: Path<u16>) {
        Path { _marker: PhantomData }
    }
}

impl PathConst for i32 {
    fn path_const() -> (r: Path<i32>) {
        Path { _marker: PhantomData }
    }
}

impl PathConst for u32 {
    fn path_const() -> (r: Path<u32>) {
        Path { _marker: PhantomData }
    }
}

impl PathConst for i64 {
    fn path_const() -> (r: Path<i64>) {
        Path { _marker: PhantomData }
    }
}

impl PathConst for u64 {
    fn path_const() -> (r: Path<u64>) {
        Path { _marker: PhantomData }
    }
}

impl PathConst for String {
    fn path_const() -> (r: Path<String>) {
        Path { _marker: PhantomData }
    }
}

} // verus!
