//! Named search patterns: selection, aggregation into one matcher, and
//! version-aware installation from a remote index.

pub mod aggregate;
pub mod error;
pub mod filter;
pub mod install;
pub mod manifest;
pub mod pattern;
pub mod repository;
pub mod search;
pub mod text;
pub mod version;
