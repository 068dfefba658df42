//! A network-triggered dead-man's switch, as a verified state machine.
//!
//! A caller presents a fixed first secret and receives a one-time token;
//! presenting that token fires a kill hook and schedules a restore hook.
//! This crate decides; the program around it performs the I/O.

pub mod text;
pub mod token;
pub mod registry;
pub mod response;
pub mod config;
pub mod reply;
pub mod server;
pub mod hooks;
pub mod laws;
