//! Client-side bridge for streaming blob downloads.
//!
//! A synchronous caller opens a download session per holder identifier,
//! reads ordered byte chunks out of a bounded queue that a background
//! receiver task fills, and tears the session down again. Failures that
//! happen asynchronously are recorded in a shared error log and surface
//! on the next synchronous call.

pub mod bridge;
pub mod config;
pub mod error_log;
pub mod identity;
pub mod session;
pub mod validation;
