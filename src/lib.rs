//! Bootstrapping an isolated command from a registry image: the decisions of
//! the run, proved, with the network, disk and process work left to the caller.

pub mod reference;
pub mod text;
pub mod registry;
pub mod manifest;
pub mod entry_path;
pub mod layer;
pub mod command;
pub mod session;
