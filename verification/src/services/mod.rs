//! What the bot makes of the services around it: the lines that come from
//! the chat, the cards that the card database describes, and the rows of the
//! store.

pub mod database;
pub mod scryfall;
pub mod sqlite;
pub mod twitch;
