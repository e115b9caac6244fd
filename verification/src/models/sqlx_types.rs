use vstd::prelude::*;

verus! {

/// A 32-bit integer column of the store (a timestamp offset or a length in seconds).
#[derive(Debug, Clone, Copy, PartialEq, Eq, Structural)]
pub struct SqliteI32(pub i32);

impl View for SqliteI32 {
    type V = int;

    open spec fn view(&self) -> int {
        self.0 as int
    }
}

} // verus!
