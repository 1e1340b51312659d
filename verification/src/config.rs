//! The bot's settings.

use vstd::prelude::*;

verus! {

/// The least time between two notifications of one user in one channel, in
/// seconds: five minutes.
pub const TIME_OUT: u64 = 300;

/// What the bot needs to know to start.
pub struct Config {
    /// The token that the bot connects to the chat platform with.
    pub discord_bot_token: String,
    /// The file that holds the subscriptions.
    pub storage_file: String,
    /// The file that the log goes to.
    pub log_file: String,
}

impl Config {
    /// The settings, from the three values that the environment gave.
    pub fn new(discord_bot_token: String, storage_file: String, log_file: String) -> (config: Config)
        ensures
            config.discord_bot_token == discord_bot_token,
            config.storage_file == storage_file,
            config.log_file == log_file,
    {
        Config { discord_bot_token, storage_file, log_file }
    }
}

} // verus!
