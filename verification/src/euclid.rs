//! The vocabulary of routing rules.

pub mod analysis;
pub mod dir;
pub mod transformers;
