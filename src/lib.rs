//! A DNS latency probe: query encoding and response decoding on top of
//! `dns_parser`, endpoint selection, and the probe loop's decisions and
//! statistics, each with a verified contract.

pub mod text;
pub mod query;
pub mod response;
pub mod render;
pub mod resolve;
pub mod run;
