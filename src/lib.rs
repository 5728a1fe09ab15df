//! Decision logic of a game-event music companion: hotkey volume control,
//! the command loop that drives playback, the on-disk audio cache and the
//! steps that fetch a track from cache or network.

pub mod volume;
pub mod command;
pub mod control;
pub mod cache;
pub mod fetch;
