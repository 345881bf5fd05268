//! Decision logic of a small object-storage command-line tool: which
//! operation an invocation selects, which key a local file is stored under,
//! what is asked of the storage service, and what is printed.
//!
//! Nothing in this crate touches the network or the file system. A caller
//! performs the I/O and reports what happened; every decision taken on those
//! reports is made here and verified.

pub mod command;
pub mod error;
pub mod key;
pub mod list_all;
pub mod region;
pub mod report;
pub mod s3_client;
pub mod upload;
