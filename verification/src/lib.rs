//! A relay for alerts: it reads the alerts that a dashboard and a cloud
//! monitor send over HTTP, turns each into a notice for a chat bot, and
//! says what is to be sent to the destinations that a request names.
//!
//! The library decides and does not send: the server around it reads the
//! requests, performs the deliveries and hands back what came of them.
//!
//! - [`common`]: the credential of a request, the delivery to its
//!   destinations one after the other, and the answer to the request;
//! - [`alert`]: the alerts of each source, how they are read from a body, and
//!   the notice that each comes to;
//! - [`notify`]: the card of the chat bot, and what the bot answers;
//! - [`error`]: what can go wrong with a request, and how it is answered;
//! - [`json`], [`form`], [`schema`], [`text`]: documents, form bodies, the reading
//!   of members, and texts.

pub mod alert;
pub mod common;
pub mod error;
pub mod form;
pub mod json;
pub mod notify;
pub mod schema;
pub mod text;
