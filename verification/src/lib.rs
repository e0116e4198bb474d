//! Signed-request protocol client for the OVHcloud "Data Integration" API.
//!
//! The crate covers the protocol core of the command-line client: clock-skew
//! tolerant timestamping, the canonical request signature, URL resolution from
//! a base endpoint plus escaped path segments, uniform classification of HTTP
//! responses, and a typed decode layer for the domain records.  Network I/O
//! itself is left to the surrounding application; everything that decides what
//! bytes go on the wire and what a response means is here, with contracts.

pub mod strutil;
pub mod sig;
pub mod clock;
pub mod endpoint;
pub mod query;
pub mod transport;
pub mod request;
pub mod model;
pub mod codec;
pub mod decode;
pub mod api;
pub mod util;
pub mod config;
pub mod cli;
pub mod options;
pub mod opts;
pub mod printer;
