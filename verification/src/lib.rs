//! Cursor-driven retrieval of a paginated media collection, and the rules by
//! which each item is stored locally.
//!
//! The library holds the decisions; the surrounding program performs the
//! network and file-system work and reports back what happened.

pub mod data;
pub mod endpoint;
pub mod pipeline;
pub mod profile;
pub mod stream;
pub mod text;
pub mod util;
