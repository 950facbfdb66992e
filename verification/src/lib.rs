//! Core of a single-screen arcade game: a player square collects randomly
//! placed target squares before a ten-second round clock runs out.
//!
//! The crate holds the deterministic per-tick simulation: axis-aligned
//! collision detection, player movement, collection scoring, wave spawning,
//! and the countdown rule that ends the round in a terminal loss state.
//! Window creation, rendering and input polling are left to the host, which
//! feeds each tick raw directional input and the current time, and reads
//! back positions, the score and the seconds remaining.

pub mod geometry;
pub mod input;
pub mod laws;
pub mod rng;
pub mod sim;
