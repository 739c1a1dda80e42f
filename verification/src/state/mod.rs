//! The state that the chat session owns: the emote catalogs and the channel
//! it is in.

pub mod current_channel_state;
pub mod emotes_map;
pub mod saved_emotes_state;
