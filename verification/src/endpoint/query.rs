//! Endpoints on the query of a request.

use std::marker::PhantomData;
use vstd::prelude::*;
use crate::context::ApplyContext;
use crate::decode::FromSegment;
use crate::endpoint::Endpoint;
use crate::input::Input;
use crate::task::{ready, Immediate};

verus! {

/// Whether the query of `input` gives `name` a value that decodes into a `T`.
pub open spec fn query_decodes<T: FromSegment>(input: &Input, name: Seq<char>) -> bool {
    input.spec_query_value(name) matches Some(text) && T::decodable(text)
}

/// An endpoint that decodes the value of a name of the query. It declines a request whose
/// query does not hold the name or gives it a value that does not decode. It consumes no
/// segment.
#[derive(Debug)]
pub struct Query<T> {
    pub name: String,
    pub _marker: PhantomData<T>,
}

/// The endpoint that decodes the value that the query gives `name`.
pub fn query<T: FromSegment>(name: &str) -> (r: Query<T>)
    ensures
        r.name@ == name@,
{
    Query { name: name.to_owned(), _marker: PhantomData }
}

impl<T> Clone for Query<T> {
    fn clone(&self) -> (r: Self)
        ensures
            r.name@ == self.name@,
    {
        Query { name: self.name.clone(), _marker: PhantomData }
    }
}

impl<T: FromSegment> Endpoint for Query<T> {
    type Output = (T,);

    type Task = Immediate<(T,)>;

    open spec fn wf(&self) -> bool {
        true
    }

    open spec fn takes_body(&self) -> bool {
        false
    }

    open spec fn matches(&self, input: &Input, pos: nat) -> bool {
        query_decodes::<T>(input, self.name@)
    }

    open spec fn position_after(&self, input: &Input, pos: nat) -> nat {
        pos
    }

    open spec fn produces(&self, input: &Input, pos: nat, task: &Self::Task) -> bool {
        &&& task.outcome matches Some(Ok(output))
        &&& input.spec_query_value(self.name@) matches Some(text)
        &&& T::decodes(text, &output.0)
    }

    fn apply(&self, cx: &mut ApplyContext) -> (r: Option<Self::Task>) {
        broadcast use ApplyContext::lemma_at_pos;

        let _ = cx.position();
        let text = match cx.input().query_value(self.name.as_str()) {
            Some(text) => text,
            None => {
                return None;
            },
        };
        match T::from_segment(text.as_str()) {
            Ok(value) => Some(ready((value,))),
            Err(_) => None,
        }
    }
}

/// An endpoint that decodes the value of a name of the query if the query holds the name.
/// It declines a request whose query gives the name a value that does not decode. It consumes
/// no segment.
#[derive(Debug)]
pub struct QueryOpt<T> {
    pub name: String,
    pub _marker: PhantomData<T>,
}

/// The endpoint that decodes the value that the query gives `name`, if it gives one.
pub fn query_opt<T: FromSegment>(name: &str) -> (r: QueryOpt<T>)
    ensures
        r.name@ == name@,
{
    QueryOpt { name: name.to_owned(), _marker: PhantomData }
}

impl<T> Clone for QueryOpt<T> {
    fn clone(&self) -> (r: Self)
        ensures
            r.name@ == self.name@,
    {
        QueryOpt { name: self.name.clone(), _marker: PhantomData }
    }
}

impl<T: FromSegment> Endpoint for QueryOpt<T> {
    type Output = (Option<T>,);

    type Task = Immediate<(Option<T>,)>;

    open spec fn wf(&self) -> bool {
        true
    }

    open spec fn takes_body(&self) -> bool {
        false
    }

    open spec fn matches(&self, input: &Input, pos: nat) -> bool {
        input.spec_query_value(self.name@) matches Some(text) ==> T::decodable(text)
    }

    open spec fn position_after(&self, input: &Input, pos: nat) -> nat {
        pos
    }

    open spec fn produces(&self, input: &Input, pos: nat, task: &Self::Task) -> bool {
        &&& task.outcome matches Some(Ok(output))
        &&& match input.spec_query_value(self.name@) {
            Some(text) => output.0 matches Some(value) && T::decodes(text, &value),
            None => output.0 is None,
        }
    }

    fn apply(&self, cx: &mut ApplyContext) -> (r: Option<Self::Task>) {
        broadcast use ApplyContext::lemma_at_pos;

        let _ = cx.position();
        let text = match cx.input().query_value(self.name.as_str()) {
            Some(text) => text,
            None => {
                return Some(ready((None,)));
            },
        };
        match T::from_segment(text.as_str()) {
            Ok(value) => Some(ready((Some(value),))),
            Err(_) => None,
        }
    }
}

} // verus!
