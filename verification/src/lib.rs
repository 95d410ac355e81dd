//! Deterministic simulation core of a farming/economy game.
//!
//! The library computes state transitions for a single player's farm — a
//! fixed 5x5 grid of plots plus a resource, tool and crafting ledger — and
//! for a global season clock. Harvest yield follows a piecewise-linear
//! decay curve modified by soil fertility, soil moisture and the season a
//! crop was planted in; spatial crop arrangements around a harvested plot
//! grant composable bonuses. All arithmetic is integer-only: multipliers
//! are percentages applied by multiplying before floor-dividing by 100.

pub mod actions;
pub mod crop;
pub mod errors;
pub mod laws;
pub mod pattern_detector;
pub mod player;
pub mod recipes;
pub mod resources;
pub mod season;
pub mod synergy;
pub mod tools;
