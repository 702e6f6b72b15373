//! Verified core of a terminal manager for systemd units: the unit model, the
//! connection and command planning, and the interactive state machine.
pub mod text;
pub mod units;
pub mod actions;
pub mod bus;
pub mod cli;
pub mod manager;
pub mod app;
pub mod laws;
pub mod view;
