//! The configuration of an engine.

use vstd::prelude::*;
use crate::engine::service::runner::backend;

verus! {

/// The configuration of an engine: the backends that it may use.
#[derive(Debug)]
pub struct Config {
    /// All backends that exist.
    pub backends: Vec<backend::Config>,
}

} // verus!
