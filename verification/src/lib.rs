//! Measuring and summarising the throughput of a Tor client.
//!
//! A benchmark exchanges two payloads with a local server, once per connection, and notes the
//! clock at each stage. This crate holds what is decided or computed on the way: the course of one
//! exchange on either side, the course of a benchmark, the figures taken from the noted clocks,
//! and the statistics over all of them.

pub mod exchange;
pub mod order;
pub mod payload;
pub mod report;
pub mod results;
pub mod run;
pub mod time;
pub mod timing;
