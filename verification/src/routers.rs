//! What the bot answers to commands, button presses and guesses.

pub mod admin;
pub mod character;
pub mod collect;
pub mod keyboard;
pub mod language;
pub mod list;
pub mod pages;
pub mod series;
pub mod start;
