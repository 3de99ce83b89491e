//! The sources of alerts.

pub mod alicloud_monitor;
pub mod grafana;
