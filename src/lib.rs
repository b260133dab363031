//! A periodic liveness prober for a remote service.
//!
//! Each cycle checks the service's heartbeat endpoint, then asks its
//! signature-creation endpoint for work so that the service does not idle
//! out, logs the outcome of both, and sleeps for a fixed interval. The
//! decisions of a cycle live here as a verified state machine; the program
//! around it performs the requests, the sleeping and the logging.

pub mod config;
pub mod cycle;
pub mod laws;
pub mod log_entry;
pub mod signatures;
pub mod status;
