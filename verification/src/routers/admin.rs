//! What only the administrators of the bot can do.

pub mod aliases;
pub mod character;
pub mod menus;
pub mod notices;
pub mod series;
