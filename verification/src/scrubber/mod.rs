//! The scrubber: where in a bucket tenants and timelines are kept, and how objects are
//! listed and downloaded.

pub mod config;
pub mod retry;
pub mod target;
