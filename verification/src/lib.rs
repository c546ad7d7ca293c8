//! Playback pipeline of a command-line audio player: queries are resolved to
//! items, items are cached as local audio files, and the files are played
//! back to back while the cache directory is kept to a bounded size.
//!
//! Everything here is pure decision logic with machine-checked contracts.
//! Running the external tools, sleeping and touching the file system are left
//! to the caller, which hands plain values in and takes plain values back.

pub mod cache;
pub mod duration;
pub mod error;
pub mod eviction;
pub mod log;
pub mod paths;
pub mod queue;
pub mod renderer;
pub mod resolver;
pub mod scheduler;
pub mod settings;
pub mod text;
