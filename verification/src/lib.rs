//! A sans-I/O core for a terminal audio player.
//!
//! The crate holds the decisions of the player and none of its system calls:
//! the event multiplexer that turns keyboard bytes and kernel events into one
//! ordered stream, the buffer pump and run-state bridge that live on the audio
//! engine's callback thread, the buffer sizing policy, and the control loop
//! that drives one file from first draw to the end of playback. Every function
//! takes plain values and hands plain values back; the caller performs the
//! reads, waits and native calls that the returned values ask for.

pub mod boombox;
pub mod error;
pub mod events;
pub mod player;
pub mod playlist;
pub mod text;
pub mod ui;
