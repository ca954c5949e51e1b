//! Storage management for a multi-tenant page store.

pub mod controller;
pub mod detach;
pub mod error;
pub mod ids;
pub mod limit;
pub mod path_order;
pub mod remote_path;
pub mod remote_storage;
pub mod scrubber;
pub mod seqs;
pub mod text;
