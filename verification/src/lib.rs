//! A command-line companion for a rhythm-game community: it looks songs and
//! charts up in a local catalog and retrieves a player's best ranked plays
//! from a score-tracking service. This crate is the verified core of that
//! pipeline: the typed record model that validates the untrusted remote
//! payload, the ranking engine that orders records by rating contribution,
//! the shaper that computes adaptive table layouts and row skeletons, and
//! the render sinks that draw one shaped structure as a console table or a
//! Markdown document.

pub mod command;
pub mod console;
pub mod json;
pub mod markdown;
pub mod printer;
pub mod ranking;
pub mod song;
pub mod textfmt;
pub mod user_data;
