//! Verified core of a collectible-character game that runs inside group chats.

pub mod config;
pub mod database;
pub mod filters;
pub mod handlers;
pub mod middlewares;
pub mod modules;
pub mod reconnect;
pub mod routers;
pub mod text;
pub mod utils;

pub use config::Config;
