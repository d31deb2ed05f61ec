//! Decisions of the experiment endpoints.
//!
//! Each endpoint is a machine: the caller performs the actions that it asks for (database
//! queries, calls of other services) and hands back what came of each as the next event.

pub mod conclude;
pub mod create;
pub mod lifecycle;
pub mod listing;
pub mod ramp;
pub mod types;
