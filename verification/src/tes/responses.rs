//! Responses of the task execution service.

use vstd::prelude::*;

verus! {

/// A response from `POST /tasks`.
#[derive(Debug)]
pub struct CreateTask {
    /// The ID of the created task.
    pub id: String,
}

} // verus!
