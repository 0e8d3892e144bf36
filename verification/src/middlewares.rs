//! What runs on every update before the handlers.

pub mod save_chat;
pub mod send_character;
pub mod set_locale;

pub use send_character::SendCharacter;
