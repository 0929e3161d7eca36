//! Files referenced within TES tasks.

use vstd::prelude::*;

verus! {

/// The type of a file referenced within a task.
#[derive(Debug)]
pub enum Type {
    /// A file.
    File,
    /// A directory.
    Directory,
}

impl Default for Type {
    fn default() -> (r: Self)
        ensures
            r is File,
    {
        Type::File
    }
}

} // verus!
