//! Safe building blocks for a process-monitoring daemon: a closed error
//! vocabulary, and the decisions behind a few operating-system queries
//! (page size, effective user name, kernel-supplied path buffers).

pub mod error;
pub mod utils;
