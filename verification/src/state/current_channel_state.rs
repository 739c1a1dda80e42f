//! The channel that the session is in.

use vstd::prelude::*;

verus! {

/// The login name and the identifier of the channel that the session is in;
/// both are `None` while it is in no channel.
#[derive(Debug, Clone)]
pub struct CurrentChannel {
    pub channel_login: Option<String>,
    pub channel_id: Option<String>,
}

impl CurrentChannel {
    pub fn new(channel_login: Option<String>, channel_id: Option<String>) -> (channel: Self)
        ensures
            channel.channel_login == channel_login,
            channel.channel_id == channel_id,
    {
        Self { channel_login, channel_id }
    }

    /// Whether the session is in a channel.
    pub open spec fn joined(&self) -> bool {
        self.channel_id is Some
    }

    /// Whether the login name and the identifier are there together or not
    /// at all.
    pub open spec fn paired(&self) -> bool {
        self.channel_login is Some <==> self.channel_id is Some
    }

    /// Whether the session is in a channel.
    pub fn is_joined(&self) -> (joined: bool)
        ensures
            joined == self.joined(),
    {
        self.channel_id.is_some()
    }
}

impl Default for CurrentChannel {
    /// In no channel.
    fn default() -> (channel: Self)
        ensures
            channel.channel_login is None,
            channel.channel_id is None,
    {
        Self::new(None, None)
    }
}

/// Records the channel that the session is in now, or that it is in none.
pub fn update_current_channel_state(
    current_channel: &mut CurrentChannel,
    new_channel_id: Option<String>,
    new_channel_login: Option<String>,
)
    ensures
        final(current_channel).channel_id == new_channel_id,
        final(current_channel).channel_login == new_channel_login,
{
    current_channel.channel_id = new_channel_id;
    current_channel.channel_login = new_channel_login;
}

} // verus!
