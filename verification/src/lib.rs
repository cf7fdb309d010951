//! Library model of a terminal audiobook player: time formatting, bookmarks,
//! chapters, ingestion of a directory into an ordered library, and the cache
//! of derived views that the render loop reads.

pub mod data;
pub mod helpers;
pub mod cache;
pub mod msgs;
pub mod ui;
pub mod actions;
pub mod popouts;
