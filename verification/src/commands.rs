//! The decisions behind the commands: which steps a command takes, in which
//! order, what stops it, and how it ends.
pub mod agent_plugins;
pub mod catalog;
pub mod flow;
pub mod gateway;
pub mod group;
pub mod hook;
pub mod parties;
pub mod profile;
pub mod session;
pub mod toggle;
pub mod workflow;
