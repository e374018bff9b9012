//! A combinator library for building the request-handling part of an HTTP service.
//!
//! An *endpoint* looks at a request and either declines it or hands out a *task*; the task
//! is polled until it yields its output or fails. Endpoints are put together from small ones:
//!
//! * `endpoint::syntax` and `endpoint::path` match and decode the segments of the path,
//!   `endpoint::method` the method, `endpoint::query` the query, `endpoint::body` the body;
//! * `endpoint::and` and `endpoint::all` ask for all of their parts and join the outputs,
//!   `endpoint::or` takes the better of two;
//! * `endpoint::map`, `endpoint::and_then` and `endpoint::or_else` change what a task yields
//!   or fails with.
//!
//! `context` holds the state of one request while it is matched and polled, `rt::app` the
//! driver that goes from a request to its response, and `rt::test` and `local` run endpoints
//! on requests that are made up.
//!
//! Every function has a contract. What an endpoint does is said by three functions of the
//! request and the cursor (`matches`, `position_after`, `produces`), and what a task does by
//! the relation `step` between the task and the context before and after a poll.

pub mod common;
pub mod context;
pub mod decode;
pub mod endpoint;
pub mod error;
pub mod headers;
pub mod input;
pub mod local;
pub mod output;
pub mod rt;
pub mod task;
pub mod text;
