//! Core logic of a small video-player application: the playback-intent
//! reducer that interprets user commands, and the container-metadata
//! record built from probed values (duration, bit rate, tag table).
//!
//! The surrounding user interface binds these to a widget toolkit and a
//! multimedia framework; everything here is plain data and arithmetic.

pub mod app_state;
pub mod dialogs;
pub mod media_info;
pub mod numerals;
pub mod player;
pub mod tags;
