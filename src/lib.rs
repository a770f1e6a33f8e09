//! Supervision of named projects run as child processes, and the store of
//! project definitions they are started from.
//!
//! `monitor` holds the registry of running processes and every decision of
//! the start / stop / status protocol; the caller performs the operating
//! system work that each decision asks for. `projects` keeps the project
//! definitions in an SQLite table. `guarantees` proves what the protocol
//! promises across several operations.

pub mod monitor;
pub mod guarantees;
pub mod projects;
