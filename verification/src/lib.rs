//! Core of a terminal browser for a remote music-playback server.
//!
//! The crate holds the algorithmic heart of the application, fully
//! verified: selectable lists with clamping or wrapping cursor movement,
//! the viewport windower that keeps the selection visible with minimal
//! scrolling, the breadcrumb navigator over the artist/album/title
//! taxonomy, and the reconciler that mirrors the remote play queue.
//! All I/O — the server protocol, terminal rendering, key capture —
//! lives outside and exchanges plain values with this crate.

pub mod actions;
pub mod data;
pub mod digits;
pub mod item;
pub mod list;
pub mod path;
pub mod queue;
pub mod tracks;
pub mod window;
