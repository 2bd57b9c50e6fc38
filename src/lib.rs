//! Relays chat events from a VK conversation into a Telegram chat: event
//! parsing, markup escaping, mention rewriting, attachment description,
//! message composition and the source-to-destination message correlation.

pub mod text;
pub mod markup;
pub mod mention;
pub mod attach;
pub mod format;
pub mod dispatch;
