//! What the library reads of the chat platform's events, as plain values.

use vstd::prelude::*;

verus! {

/// A user of the chat platform.
pub struct User {
    /// The user's id.
    pub id: u64,
    /// The user's name.
    pub name: String,
    /// The four digits that tell users of one name apart.
    pub discriminator: u16,
    /// Whether the user is a bot.
    pub bot: bool,
}

/// One message, as it arrives.
pub struct Message {
    /// The text of the message.
    pub content: String,
    /// Who wrote it.
    pub author: User,
    /// The channel it was written in.
    pub channel_id: u64,
    /// The users that the message mentions.
    pub mentions: Vec<User>,
}

} // verus!
