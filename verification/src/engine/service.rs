//! Services of the engine.

pub mod catalog;
pub mod runner;
