//! A terminal dashboard core: cluster clients, the command interpreter that
//! picks the central view, and the per-key and per-frame decisions of the
//! interactive session.

pub mod client;
pub mod command;
pub mod config;
pub mod session;
pub mod simulated_cluster;
