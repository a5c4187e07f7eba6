//! Bootstrap logic for launching the Java language server from an editor plugin.

pub mod archive;
pub mod bootstrap;
pub mod failure;
pub mod options;
pub mod provision;
pub mod text;
