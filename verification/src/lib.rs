//! Turn-based save-game snapshot management.
//!
//! The library detects the current turn number from a game's binary control
//! file, derives turn-stamped archive names, plans the flat file copies that
//! archive and restore a save directory, and drives the state updates behind
//! a filesystem watcher. All decisions are made here over plain values and
//! are verified; the surrounding process performs the actual file reads,
//! writes and change notifications and hands the results back.

pub mod archive;
pub mod copier;
pub mod error;
pub mod lister;
pub mod namer;
pub mod paths;
pub mod state;
pub mod turn;
pub mod watcher;

pub use error::Error;
