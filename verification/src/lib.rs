//! A poll/encode/write bridge between a smart-home device registry and a
//! time-series database.
//!
//! The library holds the verified core: the decoded device model, the
//! line-protocol point encoder, the credential-scheme selection, the
//! per-cycle outcome logic and the poll scheduler's state machine. The
//! surrounding process (HTTP calls, environment, signals, the timer loop)
//! lives outside and hands the library plain values.

pub mod context;
pub mod errors;
pub mod json;
pub mod numfmt;
pub mod remo;
pub mod scheduler;
pub mod timestamp;
