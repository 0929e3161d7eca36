//! A multi-backend task execution engine: the task model, the templated
//! commands of the generic backend, and the decisions that each backend takes
//! between two pieces of outside work.

pub mod engine;
pub mod text;
pub mod wdl_util;
pub mod tes;
