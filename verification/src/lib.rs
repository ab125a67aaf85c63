//! Link safety bookkeeping for a chat moderation bot: a persistent deny list
//! of URL origins, a cache of transparency-report verdicts, and the decisions
//! that the bot's message and slash-command handlers take on top of them.

pub mod codec;
pub mod clock;
pub mod errors;
pub mod store;
pub mod json;
pub mod links;
pub mod urls;
pub mod safebrowsing;
pub mod safe;
pub mod commands;
pub mod legacy;
pub mod preparer;
