//! Core logic of an in-process overlay: turning window messages into
//! input events, arbitrating input focus between the host and the overlay,
//! tracking the lifecycle of the detour and of the shadow render context,
//! merging texture deltas and sequencing the steps of one composed frame.
//!
//! Everything here is pure state and decisions. Talking to the operating
//! system, the graphics driver and the UI engine is left to the caller.

pub mod keys;
pub mod words;
pub mod event;
pub mod input;
pub mod textures;
pub mod error;
pub mod detour;
pub mod context;
pub mod frame;
pub mod overlay;
pub mod trace;
