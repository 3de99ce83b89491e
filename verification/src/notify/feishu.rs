//! The chat bot: its card messages, what it answers, and how a notice is
//! turned into a card.

pub mod api_define;
pub mod card;
pub mod post;
