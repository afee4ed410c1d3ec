//! Path validation and the pure core of a small set of filesystem
//! operations: canonical-form validation of caller-supplied paths, the
//! directories-first case-insensitive ordering of directory listings, text
//! decoding for whole-file reads, and the structured errors the operations
//! report across the boundary.

pub mod greeting;
pub mod models;
pub mod listing;
pub mod strings;
pub mod text;
pub mod validate;
