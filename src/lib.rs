//! Batch renaming of files by regular expression: per-file planning of the
//! new name, the overwrite policy, and the decision of what to do on disk.

pub mod matcher;
pub mod path;
pub mod engine;
pub mod laws;
