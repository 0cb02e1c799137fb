//! Store-and-forward relay for energy-meter readings.
//!
//! Every reading is committed to a local queue, offered to the remote
//! collection service, and kept as pending until the service acknowledges it.
//! The modules hold the queue with its retention cap, the migration ledger,
//! the credential cache, the rules on remote responses and the processing
//! steps; all of them work on plain values, so that the transport and the
//! durable storage stay with the caller.
pub mod auth;
pub mod config;
pub mod laws;
pub mod migrate;
pub mod pending;
pub mod pipeline;
pub mod reading;
pub mod remote;
pub mod rows;
pub mod steps;
pub mod store;
