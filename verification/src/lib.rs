//! Audits of smart contracts by a remote reasoning service: several
//! analyzers look at one contract side by side, what they find is merged by
//! one further request, and the merged answer is read as a report.
//!
//! Nothing here talks to the service. Each step says which requests are to
//! be made and reads how they ended; the caller makes them.

pub mod agents;
pub mod findings;
pub mod json;
pub mod models;
pub mod remote;
pub mod server;
pub mod text;
pub mod vault;
