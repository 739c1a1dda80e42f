//! Core of a Twitch chat overlay: chat lines are turned into HTML fragments in
//! which emote names are replaced by images, using emote catalogs that are
//! merged from several providers and kept per channel.

pub mod emote_providers;
pub mod messages_queue;
pub mod models;
pub mod services;
pub mod session;
pub mod state;
pub mod utils;
