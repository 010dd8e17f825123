//! Core engine of a coding-practice RPG: turn-based combat resolution and a
//! narrative dungeon with dice-based skill checks.
//!
//! The library is pure game logic over plain values. Persistence (the row
//! store holding characters, sessions and catalog content) is a collaborator
//! that loads records, hands them to these functions, and writes the returned
//! records back. Randomness enters through the small wrappers in [`rng`];
//! everything downstream of a drawn number is verified for every outcome.

pub mod errors;
pub mod rng;
pub mod stats;
pub mod text;
pub mod progress;
pub mod currency;
pub mod combat;
pub mod assoc;
pub mod narrative;
pub mod outcome;
pub mod records;
pub mod mcq;
pub mod langs;
