//! Memory-watching and autosplit decision engine for Superliminal.
//!
//! The library holds the logic of an autosplitter: value watchers that keep
//! the previous and the current reading of a quantity, the walk along a
//! pointer path, the decoding of the scene name, the all-or-nothing snapshot
//! of one poll, and the decision of which timer commands to issue.
//! Reading the game's memory and talking to the timer are left to the host.
pub mod autosplit;
pub mod game;
pub mod game_time;
pub mod path;
pub mod text;
pub mod watcher;

pub use game::State;
pub use text::bytes_to_string;
