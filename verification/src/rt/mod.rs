//! Driving an endpoint: from a request to the output of its task.

pub mod app;
pub mod payload;
pub mod test;
