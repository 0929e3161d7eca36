//! The catalog of named services.

pub mod name;
