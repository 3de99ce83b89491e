//! Alerts of the dashboard.

pub mod message;
pub mod route;
pub mod transform;
