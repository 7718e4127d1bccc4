//! Latency and loss measurement against a name server: DNS queries sent at a
//! fixed cadence, each reply matched to the query that caused it.
//!
//! The crate holds the decisions of the probing engine and proves them. It
//! performs no input or output: a caller owns the socket, the clock and the
//! threads, hands what it observed to the functions here and carries out what
//! they answer.

pub mod address;
pub mod codec;
pub mod endpoint;
pub mod error;
pub mod history;
pub mod probe;
pub mod session;
pub mod stats;
pub mod table;
