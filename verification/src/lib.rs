//! Navigation core of a terminal manager for game-server records.
//!
//! The library owns the record model (servers holding mods), the selection
//! cursors, the screen state machine and the shared edit-buffer protocol.
//! Terminal drawing, the backing file and external process control are left
//! to the surrounding application, which hands the collection in and out as
//! plain values.

pub mod ark;
pub mod db;
pub mod input;
pub mod render;
pub mod service;
pub mod text;
