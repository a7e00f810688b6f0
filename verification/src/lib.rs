//! Verified core of a system-tray controller for a local smolvm microVM.
pub mod config;
pub mod facts;
pub mod laws;
pub mod log;
pub mod model;
pub mod net;
pub mod notes;
pub mod platform;
pub mod smolvm;
pub mod state;
pub mod text;
pub mod tray;
pub mod worker;
