//! Core logic of a bounded TCP echo service.
//!
//! The service accepts inbound connections, mirrors every byte a client
//! sends back to that client, and bounds the number of concurrently
//! serviced connections with a lightweight admission counter.  This crate
//! holds the logic with correctness concerns — the admission protocol and
//! the per-connection echo state machine — verified; the sockets, threads
//! and logging around it are ordinary glue that drives these types.

pub mod admission;
pub mod handler;
