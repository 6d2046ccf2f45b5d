//! The computing parts of the built-in tools.
pub mod paths;
pub mod output;
pub mod args;
pub mod read_file;
pub mod edit_file;
pub mod requests;
pub mod glob;
pub mod defs;
