//! A file-synchronisation agent: it walks a local directory tree, decides which
//! entries still have to be mirrored to a remote metadata service, and drives each
//! of them through registration, content transfer and finalisation, remembering
//! every path that went through completely so that later scans skip it.
//!
//! The library holds the decisions; a program around it performs the directory
//! listings, the network calls and the writes to disk, and reports their outcome.

pub mod agent;
pub mod client;
pub mod config;
pub mod error;
pub mod index;
pub mod paths;
pub mod pipeline;
pub mod remote;
pub mod scheduler;
pub mod schema;
pub mod token;
