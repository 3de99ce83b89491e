//! Destinations that a notice can be sent to.

pub mod feishu;
