//! Core of a terminal music player: the playback state machine, the scrolling
//! track list with its highlights, and the text that makes up each screen update.

pub mod args;
pub mod colors;
pub mod draw;
pub mod input;
pub mod paint;
pub mod player;
pub mod playlist;
pub mod queue;
pub mod repeat;
pub mod search;
pub mod shuffle;
pub mod text;
pub mod ui;
