//! Detaching a timeline from its ancestor: the timeline takes over what it needs of the
//! ancestor's layers, and the earlier branches of the ancestor move over to it.

pub mod complete;
pub mod decisions;
pub mod error;
pub mod layers;
pub mod order;
pub mod prepare;
pub mod prepare_run;
pub mod rewrite;
