//! Enemy behaviour for a frame-stepped action game: a catalog of archetypes,
//! each a cycle of behaviour states, and the per-enemy simulation that moves,
//! switches state and fires.
pub mod geometry;
pub mod catalog;
pub mod enemy;
pub mod utils;
