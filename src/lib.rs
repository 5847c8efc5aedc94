//! Unattended USB-key unlocking: the decisions of a scan, match, mount,
//! read and digest cycle, and the parsing of its configuration.
pub mod config;
pub mod digest;
pub mod error;
pub mod pipeline;
pub mod runs;
pub mod text;
