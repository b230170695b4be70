//! Decision and formatting logic of a Discord music bot: voice-channel checks,
//! query classification, YouTube search result selection, the idle timer of a
//! voice call, and the text of the bot's replies.

pub mod admin;
pub mod handlers;
pub mod pattern;
pub mod reply;
pub mod search;
pub mod source;
pub mod spotify;
pub mod text;
pub mod voice;

use vstd::prelude::*;

verus! {

/// Per-bot state shared with every command; the bot keeps none.
pub struct Data {}

} // verus!
