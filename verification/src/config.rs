//! Start-up configuration.

use vstd::prelude::*;

verus! {

/// Everything the service is configured with at start-up.
#[derive(Clone, Debug)]
pub struct Config {
    pub telegram: Telegram,
    pub bot: Bot,
}

/// Credentials of the application on the chat platform.
#[derive(Clone, Debug)]
pub struct Telegram {
    pub api_id: i32,
    pub api_hash: String,
}

/// Settings of the bot account.
#[derive(Clone, Debug)]
pub struct Bot {
    pub token: String,
    pub catch_up: bool,
    pub flood_sleep_threshold: u32,
}

} // verus!
