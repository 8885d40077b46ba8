//! treeclip: walks a directory tree, prunes entries with gitignore-style
//! exclusion rules, and concatenates the surviving files' text into one
//! aggregated stream with per-file path headers.
//!
//! The crate holds the decision and serialization core: which entries take
//! part in the output, how relative-path headers are computed, and how the
//! records are laid out. Reading the disk and writing the destination are
//! left to the surrounding program, which feeds plain values in and out.

pub mod aggregate;
pub mod error;
pub mod exclude;
pub mod formatter;
pub mod messages;
pub mod paths;
pub mod progress;
pub mod strutil;
pub mod table;
pub mod utils;
pub mod walker;
