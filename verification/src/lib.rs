//! Playback logic of a small lossless music player.
//!
//! - `picture`, `metadata`, `cover`: reading a file's tags and stream
//!   properties, which embedded picture is shown, its thumbnail, and what the
//!   window displays.
//! - `timespan`, `engine`: the audio thread's decisions, from a command and
//!   what the output sink reports to the next state and the actions to take.
//! - `files`: which entries of a folder form a playlist, and in what order.
//! - `player`: the window's state and how user actions and engine messages
//!   change it.
//! - `timefmt`, `display`: the texts the window shows.
pub mod cover;
pub mod display;
pub mod engine;
pub mod files;
pub mod metadata;
pub mod picture;
pub mod player;
pub mod timefmt;
pub mod timespan;
