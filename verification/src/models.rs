//! Values that travel from the chat session to the user interface.

use vstd::prelude::*;
use vstd::std_specs::cmp::PartialEqSpecImpl;
use vstd::string::StringExecFns;

verus! {

/// The author of a chat line.
#[derive(Debug, Clone)]
pub struct GigaChatSender {
    pub login: String,
    pub display_name: String,
    pub color: String,
}

impl GigaChatSender {
    pub fn new(login: String, display_name: String, color: String) -> (sender: Self)
        ensures
            sender.login == login,
            sender.display_name == display_name,
            sender.color == color,
    {
        Self { login, display_name, color }
    }
}

impl Default for GigaChatSender {
    /// A sender without a name, coloured black.
    fn default() -> (sender: Self)
        ensures
            sender.login@ == Seq::<char>::empty(),
            sender.display_name@ == Seq::<char>::empty(),
            sender.color@ == "#000000"@,
    {
        Self::new(String::new(), String::new(), String::from_str("#000000"))
    }
}

/// A chat line as it is shown: the raw text, the rendered HTML, and when it
/// was sent. `timestamp` counts milliseconds since the Unix epoch, in UTC.
///
/// Two messages are equal when their identifiers are equal, whatever the rest
/// holds.
#[derive(Debug, Clone)]
pub struct GigaChatMessage {
    pub sender: GigaChatSender,
    pub message: String,
    pub message_html: String,
    pub message_id: String,
    pub timestamp: i64,
}

impl GigaChatMessage {
    pub fn new(
        sender: GigaChatSender,
        message: String,
        message_with_emotes: String,
        message_id: String,
        timestamp: i64,
    ) -> (msg: Self)
        ensures
            msg.sender == sender,
            msg.message == message,
            msg.message_html == message_with_emotes,
            msg.message_id == message_id,
            msg.timestamp == timestamp,
    {
        Self { sender, message, message_html: message_with_emotes, message_id, timestamp }
    }
}

impl Default for GigaChatMessage {
    /// An empty message from the default sender, sent at the epoch.
    fn default() -> (msg: Self)
        ensures
            msg.sender.login@ == Seq::<char>::empty(),
            msg.sender.display_name@ == Seq::<char>::empty(),
            msg.sender.color@ == "#000000"@,
            msg.message@ == Seq::<char>::empty(),
            msg.message_html@ == Seq::<char>::empty(),
            msg.message_id@ == Seq::<char>::empty(),
            msg.timestamp == 0,
    {
        Self::new(GigaChatSender::default(), String::new(), String::new(), String::new(), 0)
    }
}

impl PartialEq for GigaChatMessage {
    fn eq(&self, other: &Self) -> (equal: bool) {
        self.message_id == other.message_id
    }
}

impl PartialEqSpecImpl for GigaChatMessage {
    open spec fn obeys_eq_spec() -> bool {
        true
    }

    open spec fn eq_spec(&self, other: &Self) -> bool {
        self.message_id@ == other.message_id@
    }
}

/// Tells the user interface whether the window lets the pointer through.
#[derive(Clone, Debug)]
pub struct UpdateIgnoreEventsArgs {
    pub ignore_events: bool,
}

/// Tells the user interface whether the window stays above the others.
#[derive(Clone, Debug)]
pub struct UpdateAlwaysOnTopEventArgs {
    pub always_on_top: bool,
}

} // verus!
