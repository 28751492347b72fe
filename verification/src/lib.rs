//! Verified core logic of the cadenza desktop shell.

pub mod battery;
pub mod bluetooth;
pub mod bluetooth_menu;
pub mod commands;
pub mod dispatch;
pub mod network;
pub mod network_menu;
pub mod notifications;
pub mod rows;
pub mod services;
pub mod shell;
pub mod icons;
pub mod text;
