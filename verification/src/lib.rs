//! A two-player Nim-like pebble game: a pile of pebbles, a per-turn cap, and
//! an automated opponent playing either a random ("easy") or a closed-form
//! optimal ("hard") strategy.
//!
//! The library is transport-agnostic: commands and random draws arrive as
//! plain values, and every handler is a deterministic, verified function of
//! its arguments.

pub mod game;
pub mod strategy;
