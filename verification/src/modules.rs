//! Services that the handlers share.

pub mod anilist;
pub mod conversation;
pub mod database;
pub mod i18n;

pub use anilist::Anilist;
pub use conversation::Conversation;
pub use database::Database;
pub use i18n::I18n;
