//! Batch renaming by ordered regular-expression rules.
//!
//! `matcher` holds one compiled rule and what a replacement does, `rules`
//! applies a list of them in order, `paths` splits and joins paths, and
//! `session` decides, path by path, what happens to each file.

pub mod matcher;
pub mod rules;
pub mod paths;
pub mod session;
