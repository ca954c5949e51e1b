//! The storage controller: which HTTP requests it takes, what has to hold before one is
//! served, and how it is answered.

pub mod auth;
pub mod documented;
pub mod endpoint;
pub mod handler;
pub mod metrics;
pub mod passthrough;
pub mod router;
pub mod startup;
pub mod status;
pub mod timeline_delete;
pub mod uri;
