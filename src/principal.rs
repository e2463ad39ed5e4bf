use vstd::prelude::*;

verus! {

/// An authenticated caller's identity, held as the number the host assigns to
/// its address.
#[derive(Debug, Clone, Copy, PartialEq, Eq, Structural)]
pub struct Principal {
    pub id: u64,
}

impl Principal {
    pub fn new(id: u64) -> (r: Principal)
        ensures
            r.id == id,
    {
        Principal { id }
    }
}

} // verus!
