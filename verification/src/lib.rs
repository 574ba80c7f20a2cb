//! The platform-independent core of a small file access facade.
//!
//! The facade offers four operations on paths: read a file as text, write a
//! file (creating parent directories), test for existence, and take a
//! metadata snapshot. The calls into the file system themselves live with
//! the application shell; this crate holds the part that computes, chiefly
//! the assembly of a metadata record from a raw stat result, with the rule
//! that an optional timestamp is dropped rather than defaulted when the
//! platform cannot report it.

pub mod metadata;
