//! Verified core of a cross-process layer-sharing demo: the messages that the
//! browser child process and the host process exchange, the search for the
//! shared layer in a layer tree, and the decisions the host and child
//! processes take on the events they receive.

pub mod browser;
pub mod host;
pub mod ipc;
pub mod laws;
pub mod layer_tree;
