//! Brightness control for external displays: device tables, the two wire
//! protocols' payloads, the command queue, and the polling coordinator's
//! decisions.

pub mod commands;
pub mod coordinator;
pub mod devices;
pub mod enumeration;
pub mod icon;
pub mod laws;
pub mod mapping;
pub mod monitor;
pub mod protocols;
