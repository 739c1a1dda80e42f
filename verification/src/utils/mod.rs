//! Small helpers for what is shown.

pub mod colors;
