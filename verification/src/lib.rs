//! Orchestration core of a plugin supervisor: edge-triggered activity
//! detection, a reactive start/stop/restart state machine over configuration
//! reloads and activity transitions, a bounded broadcast bus model with
//! drop-on-lag semantics, plugin-group startup with fresh subscriptions, and
//! the tri-state outcome classification used for cooperative shutdown.

pub mod activity;
pub mod bus;
pub mod config;
pub mod group;
pub mod oracle;
pub mod outcome;
pub mod supervisor;
