//! Creating issues on a remote tracker from a CSV file, one tracker command per row.
//!
//! The library holds every decision of a run: which input formats are served, how a
//! CSV table maps onto issue records, which command line creates each issue, and the
//! order in which a run reads its input, dispatches commands and fails. The caller
//! performs the reading and the process spawning that a run asks for.
pub mod error;
pub mod issue;
pub mod config;
pub mod table;
pub mod command;
pub mod session;
