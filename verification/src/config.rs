//! The bot's settings, as read from its configuration file.
use vstd::prelude::*;

verus! {

/// Settings of the bot.
pub struct Config {
    /// How many questions an applicant is asked, drawn at random from `lines`.
    pub questions_number: usize,
    /// Delay before a verification channel is deleted, in seconds.
    pub delete_delay_seconds: u64,
    /// Whether a verdict schedules the deletion of the channel by itself.
    pub auto_delete_on_verdict: bool,
    /// The category under which verification channels are made.
    pub category_id: u64,
    /// The channel that receives the log.
    pub log_channel_id: u64,
    /// Roles whose members may give verdicts and delete channels.
    pub moderator_role_ids: Vec<u64>,
    /// Roles that an accepted applicant receives.
    pub verified_role_ids: Vec<u64>,
    /// The questions to draw from.
    pub lines: Vec<String>,
}

} // verus!
