//! A resilient point-to-point relay: one inbound byte stream is reframed into
//! newline-terminated batches, each batch is compressed, encoded and handed
//! over for upload, and throughput counters are kept for inspection.
//!
//! Every decision the relay takes lives here as a function from plain values
//! to plain values with a proved contract; sockets, timers and the HTTP
//! client belong to the program that drives these functions.

pub mod cli;
pub mod dashboard;
pub mod forward;
pub mod receiver;
pub mod toml;
