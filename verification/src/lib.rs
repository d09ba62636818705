//! Classification of native runtime failures into the closed vocabulary of
//! exception kinds that an embedding script engine understands.
//!
//! Native subsystems (filesystem, networking, TLS, foreign-function calls,
//! key-value storage, web-platform primitives, and so on) each raise their own
//! richly-typed failure values.  Script code, however, sees only a small,
//! stable set of exception kinds.  This crate is the seam between the two: a
//! total, pure classifier that maps every failure value it recognizes to a
//! class tag, and reports everything else as unclassified - never failing
//! itself.

pub mod foreign;
pub mod kv_store;
pub mod laws;
pub mod network;
pub mod os_code;
pub mod registry;
pub mod resources;
pub mod simple;
pub mod tags;
pub mod value;
pub mod web;
