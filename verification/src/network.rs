//! The network: NetworkManager's types, the state the shell shows, scan
//! results, commands and connection outcomes.

pub mod commands;
pub mod events;
pub mod scan;
pub mod service;
pub mod state;
pub mod types;
