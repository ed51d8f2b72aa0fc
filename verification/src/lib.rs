//! State and navigation engine for a terminal music-library browser.
//!
//! The library models everything the application decides: tab focus, cyclic
//! list selection over playlists and their songs, the modal text-edit buffer
//! with its cursor and scroll math, and the persisted source-path list with
//! its write-through encoding. Terminal rendering and the key-event source
//! stay outside; they hand plain values in and take plain values back.

pub mod dispatch;
pub mod global;
pub mod home;
pub mod order;
pub mod selection;
pub mod sources;
pub mod store;
