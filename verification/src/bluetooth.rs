//! Bluetooth: the adapter and device state, pairing, and the commands the
//! UI sends to the Bluetooth service.

pub mod agent;
pub mod commands;
pub mod service;
pub mod state;
