//! The core of a terminal music browser.
//!
//! The library is laid out as artists, albums and songs, three directory
//! levels below one root. The core lists the visible names of a directory
//! in order ([`listing`], [`scanner`]), walks the three levels as a state
//! machine ([`navigation`]) and keeps the one session that plays the chosen
//! song ([`playback`]). It reads no directory and opens no device itself:
//! the shell around it does, and hands in what came of it.

pub mod library;
pub mod listing;
pub mod names;
pub mod navigation;
pub mod playback;
pub mod scanner;
