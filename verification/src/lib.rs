//! Service helpers and experiment decisions.

pub mod dimensions;
pub mod environment;
pub mod error;
pub mod experiments;
pub mod headers;
pub mod json;
pub mod list_param;
pub mod tags;
pub mod text;
pub mod time;
pub mod type_check;
pub mod validation;
