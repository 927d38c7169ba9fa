//! Submission and result-streaming front end of a distributed dataflow engine.
//!
//! The crate holds the rules that sit between a client's job request and the
//! runtime that executes it: how a submitted configuration is resolved against
//! the engine's defaults, how a request is turned into a job, how the results
//! of many concurrent producers are folded into one response stream with a
//! single terminator, and in which order a server comes up.

pub mod config;
pub mod fan_in;
pub mod protocol;
pub mod server;
pub mod service;
pub mod sink;
