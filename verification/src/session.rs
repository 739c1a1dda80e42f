//! The chat session: what each event from the server does to the state, and
//! what is to be done outside because of it.

use vstd::prelude::*;
use vstd::string::StringExecFns;
use crate::models::{GigaChatMessage, GigaChatSender};
use crate::services::emotes_service::{message_emotes, message_html, EmotesService, TwitchEmote};
use crate::state::current_channel_state::{update_current_channel_state, CurrentChannel};
use crate::state::saved_emotes_state::{reset_channel_emotes_state, Catalogs, SavedEmotes};

verus! {

/// The colour that a sender chose for their name.
#[derive(Debug, Clone, Copy, PartialEq, Eq, Structural)]
pub struct NameColor {
    pub r: u8,
    pub g: u8,
    pub b: u8,
}

/// A chat line as the server sends it. `server_timestamp` counts milliseconds
/// since the Unix epoch, in UTC.
#[derive(Debug, Clone)]
pub struct ChatLine {
    pub sender_login: String,
    pub sender_name: String,
    pub name_color: Option<NameColor>,
    pub message_text: String,
    pub emotes: Vec<TwitchEmote>,
    pub message_id: String,
    pub server_timestamp: i64,
}

/// What the server sends, as far as the session acts on it.
#[derive(Debug, Clone)]
pub enum ServerEvent {
    /// The state of a room: the session is in this channel now.
    RoomState { channel_login: String, channel_id: String },
    /// The session has left its channel.
    Part,
    /// Someone wrote a line.
    Privmsg(ChatLine),
    /// Anything else.
    Other,
}

/// What is to be done outside the session after an event.
#[derive(Debug, Clone)]
pub enum SessionAction {
    /// Nothing.
    Nothing,
    /// Ask the providers for the emotes of this channel, without waiting, and
    /// put the merged answer in place of the channel catalog when it is
    /// there.
    FetchChannelEmotes { channel_id: String },
    /// Hand this message to the user interface.
    EmitNewMessage(GigaChatMessage),
}

/// The two upper-case hexadecimal digits of a byte.
pub open spec fn upper_hex_pair(byte: u8) -> Seq<char> {
    seq!["0123456789ABCDEF"@[byte as int / 16], "0123456789ABCDEF"@[byte as int % 16]]
}

/// A colour as HTML writes it: `#`, then two upper-case hexadecimal digits
/// for each of red, green and blue.
pub open spec fn color_text(color: NameColor) -> Seq<char> {
    seq!['#'] + upper_hex_pair(color.r) + upper_hex_pair(color.g) + upper_hex_pair(color.b)
}

/// Calls `to_string` of `twitch_irc::message::RGBColor`, that is its
/// `Display`, on the colour with these parts. The contract claims what that
/// impl writes: `#` and each part as two upper-case hexadecimal digits, with
/// a leading zero where the part is below sixteen.
#[verifier::external_body]
fn rgb_color_text(r: u8, g: u8, b: u8) -> (text: String)
    ensures
        text@ == color_text((NameColor { r, g, b })),
{
    twitch_irc::message::RGBColor { r, g, b }.to_string()
}

/// The colour of a sender who chose none.
pub open spec fn default_name_color() -> Seq<char> {
    "#999999"@
}

/// Whether `message` is what is shown for `line` when the catalogs hold
/// `catalogs`: the sender and the text as they came, and the HTML of the
/// text with the emotes of the line laid over the channel's.
pub open spec fn shows_line(message: GigaChatMessage, line: ChatLine, catalogs: Catalogs) -> bool {
    &&& message.sender.login@ == line.sender_login@
    &&& message.sender.display_name@ == line.sender_name@
    &&& message.sender.color@ == match line.name_color {
        Some(color) => color_text(color),
        None => default_name_color(),
    }
    &&& message.message@ == line.message_text@
    &&& message.message_html@ == message_html(
        catalogs.with_message_emotes(message_emotes(line.emotes@)),
        line.message_text@,
    )
    &&& message.message_id@ == line.message_id@
    &&& message.timestamp == line.server_timestamp
}

/// Where a session stands: connected and in no channel, or in a channel.
pub ghost enum SessionState {
    Connected,
    Joined { channel_login: Seq<char>, channel_id: Seq<char> },
}

/// The state of a session: the channel it is in and the emote catalogs.
#[derive(Debug)]
pub struct ChatSession {
    pub current_channel: CurrentChannel,
    pub saved_emotes: SavedEmotes,
}

impl ChatSession {
    /// Where the session stands.
    pub open spec fn state(&self) -> SessionState {
        match (self.current_channel.channel_login, self.current_channel.channel_id) {
            (Some(channel_login), Some(channel_id)) => SessionState::Joined {
                channel_login: channel_login@,
                channel_id: channel_id@,
            },
            _ => SessionState::Connected,
        }
    }

    /// A session in no channel, with empty catalogs.
    pub fn new() -> (session: Self)
        ensures
            session.state() == SessionState::Connected,
            session.current_channel.paired(),
            session.current_channel.channel_login is None,
            session.current_channel.channel_id is None,
            session.saved_emotes@.global == Map::<Seq<char>, Seq<char>>::empty(),
            session.saved_emotes@.channel == Map::<Seq<char>, Seq<char>>::empty(),
    {
        Self { current_channel: CurrentChannel::default(), saved_emotes: SavedEmotes::default() }
    }

    /// The message that is shown for `line`.
    pub fn show_line(&self, line: ChatLine) -> (message: GigaChatMessage)
        ensures
            shows_line(message, line, self.saved_emotes@),
    {
        let message_with_emotes = EmotesService::transcode(
            &self.saved_emotes,
            &line.emotes,
            line.message_text.as_str(),
        );
        let color = match line.name_color {
            Some(color) => rgb_color_text(color.r, color.g, color.b),
            None => String::from_str("#999999"),
        };
        GigaChatMessage::new(
            GigaChatSender::new(line.sender_login, line.sender_name, color),
            line.message_text,
            message_with_emotes,
            line.message_id,
            line.server_timestamp,
        )
    }

    /// Takes one event from the server. Events are to be handed over in the
    /// order in which they arrived.
    ///
    /// The state of a room puts the session in that channel and empties the
    /// channel catalog at once; the action asks for the emotes of the new
    /// channel. Leaving puts the session in no channel and empties the
    /// channel catalog. A chat line changes nothing and is handed on as a
    /// message, whether the session is in a channel or not. Any other event
    /// changes nothing.
    pub fn handle_event(&mut self, event: ServerEvent) -> (action: SessionAction)
        ensures
            match event {
                ServerEvent::RoomState { channel_login, channel_id } => {
                    &&& final(self).state() == (SessionState::Joined {
                        channel_login: channel_login@,
                        channel_id: channel_id@,
                    })
                    &&& final(self).current_channel.channel_login == Some(channel_login)
                    &&& final(self).current_channel.channel_id == Some(channel_id)
                    &&& final(self).saved_emotes@ == old(self).saved_emotes@.reset_channel()
                    &&& action matches SessionAction::FetchChannelEmotes { channel_id: asked }
                    &&& asked@ == channel_id@
                },
                ServerEvent::Part => {
                    &&& final(self).state() == SessionState::Connected
                    &&& final(self).current_channel.channel_login is None
                    &&& final(self).current_channel.channel_id is None
                    &&& final(self).saved_emotes@ == old(self).saved_emotes@.reset_channel()
                    &&& action is Nothing
                },
                ServerEvent::Privmsg(line) => {
                    &&& final(self).current_channel == old(self).current_channel
                    &&& final(self).saved_emotes@ == old(self).saved_emotes@
                    &&& action matches SessionAction::EmitNewMessage(message)
                    &&& shows_line(message, line, old(self).saved_emotes@)
                },
                ServerEvent::Other => {
                    &&& final(self).current_channel == old(self).current_channel
                    &&& final(self).saved_emotes@ == old(self).saved_emotes@
                    &&& action is Nothing
                },
            },
    {
        match event {
            ServerEvent::RoomState { channel_login, channel_id } => {
                let asked = channel_id.clone();
                update_current_channel_state(
                    &mut self.current_channel,
                    Some(channel_id),
                    Some(channel_login),
                );
                reset_channel_emotes_state(&mut self.saved_emotes);
                SessionAction::FetchChannelEmotes { channel_id: asked }
            },
            ServerEvent::Part => {
                update_current_channel_state(&mut self.current_channel, None, None);
                reset_channel_emotes_state(&mut self.saved_emotes);
                SessionAction::Nothing
            },
            ServerEvent::Privmsg(line) => SessionAction::EmitNewMessage(self.show_line(line)),
            ServerEvent::Other => SessionAction::Nothing,
        }
    }
}

/// What a change of the channel name in the settings asks of the connection.
#[derive(Debug, Clone)]
pub struct ChannelSwitch {
    /// The channel to leave, if any.
    pub part: Option<String>,
    /// The channel to join, if any.
    pub join: Option<String>,
}

/// What is to be done when the settings name `new_channel_name` where they
/// named `old_channel_name`: nothing where the name is the same; else the
/// old channel is left, if there was one, and the new one is joined.
pub fn plan_channel_switch(
    old_channel_name: &str,
    new_channel_name: &str,
) -> (switch: ChannelSwitch)
    ensures
        old_channel_name@ == new_channel_name@ ==> switch.part is None && switch.join is None,
        old_channel_name@ != new_channel_name@ ==> {
            &&& switch.join matches Some(joined)
            &&& joined@ == new_channel_name@
            &&& old_channel_name@.len() == 0 ==> switch.part is None
            &&& old_channel_name@.len() > 0 ==> {
                &&& switch.part matches Some(left)
                &&& left@ == old_channel_name@
            }
        },
{
    let old_name = String::from_str(old_channel_name);
    let new_name = String::from_str(new_channel_name);
    if old_name == new_name {
        ChannelSwitch { part: None, join: None }
    } else {
        let part = if old_channel_name.is_empty() {
            None
        } else {
            Some(old_name)
        };
        ChannelSwitch { part, join: Some(new_name) }
    }
}

/// After the session entered or left a channel, and until a fetched catalog
/// is put in place, a chat line is rendered with the global catalog and its
/// own emotes only: nothing of the channel before is left.
pub proof fn lemma_no_stale_channel_emotes(
    before: Catalogs,
    emotes: Map<Seq<char>, Seq<char>>,
    name: Seq<char>,
)
    ensures
        before.reset_channel().with_message_emotes(emotes).lookup(name) == if emotes.contains_key(
            name,
        ) {
            Some(emotes[name])
        } else if before.global.contains_key(name) {
            Some(before.global[name])
        } else {
            None
        },
{
}

} // verus!
