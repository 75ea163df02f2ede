//! What the commands of the tool decide, apart from what they read and run.

pub mod build_entry;
pub mod version;
