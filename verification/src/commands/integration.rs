//! Command execution driven by component messages.

pub mod relm4_integration;
