//! What is computed from the state: the words of a message and its HTML.

pub mod emotes_service;
pub mod message_runs;
pub mod message_words;

pub use emotes_service::EmotesService;
