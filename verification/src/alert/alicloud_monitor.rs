//! Alerts of the cloud monitor.

pub mod message;
pub mod route;
pub mod transform;
