use vstd::prelude::*;

use crate::error::SpotEventError;

verus! {

/// How many credentials an event may issue, and how many it has.
#[derive(Debug, Clone, Copy, PartialEq, Eq, Structural)]
pub struct Capacity {
    pub max: u32,
    pub issued: u32,
}

impl Capacity {
    /// Something may be issued, and no more was issued than allowed.
    pub open spec fn wf(&self) -> bool {
        0 < self.max && self.issued <= self.max
    }

    /// A fresh counter with room for `max`; a zero bound is rejected.
    pub fn new(max: u32) -> (r: Result<Capacity, SpotEventError>)
        ensures
            max > 0 ==> r == Ok::<Capacity, SpotEventError>(Capacity { max, issued: 0 }),
            max == 0 ==> r == Err::<Capacity, SpotEventError>(SpotEventError::InvalidParameters),
    {
        if max == 0 {
            Err(SpotEventError::InvalidParameters)
        } else {
            Ok(Capacity { max, issued: 0 })
        }
    }

    /// Takes one slot if one is left; otherwise changes nothing.
    pub fn try_reserve(&mut self) -> (r: Result<(), SpotEventError>)
        requires
            old(self).wf(),
        ensures
            final(self).wf(),
            final(self).max == old(self).max,
            old(self).issued < old(self).max ==> r == Ok::<(), SpotEventError>(())
                && final(self).issued == old(self).issued + 1,
            old(self).issued >= old(self).max ==> r == Err::<(), SpotEventError>(SpotEventError::LimitExceeded)
                && *final(self) == *old(self),
    {
        if self.issued < self.max {
            self.issued = self.issued + 1;
            Ok(())
        } else {
            Err(SpotEventError::LimitExceeded)
        }
    }

    /// Moves the bound to `new_max`, which may not be zero nor below what was issued.
    pub fn set_max(&mut self, new_max: u32) -> (r: Result<(), SpotEventError>)
        requires
            old(self).wf(),
        ensures
            final(self).wf(),
            final(self).issued == old(self).issued,
            (new_max > 0 && new_max >= old(self).issued) ==> r == Ok::<(), SpotEventError>(())
                && final(self).max == new_max,
            !(new_max > 0 && new_max >= old(self).issued) ==> r == Err::<(), SpotEventError>(
                SpotEventError::InvalidParameters,
            ) && *final(self) == *old(self),
    {
        if new_max == 0 || new_max < self.issued {
            Err(SpotEventError::InvalidParameters)
        } else {
            self.max = new_max;
            Ok(())
        }
    }
}

} // verus!
