use vstd::prelude::*;

use crate::error::SpotEventError;

verus! {

/// The inclusive range of timestamps during which claims are accepted.
#[derive(Debug, Clone, Copy, PartialEq, Eq, Structural)]
pub struct ClaimWindow {
    pub start: u64,
    pub end: u64,
}

impl ClaimWindow {
    /// The window's bounds are in order.
    pub open spec fn wf(&self) -> bool {
        self.start <= self.end
    }

    pub open spec fn spec_is_open(&self, now: u64) -> bool {
        self.start <= now && now <= self.end
    }

    /// A window from `start` to `end`; an inverted range is rejected.
    pub fn new(start: u64, end: u64) -> (r: Result<ClaimWindow, SpotEventError>)
        ensures
            start <= end ==> r == Ok::<ClaimWindow, SpotEventError>(ClaimWindow { start, end }),
            start > end ==> r == Err::<ClaimWindow, SpotEventError>(SpotEventError::InvalidParameters),
    {
        if start > end {
            Err(SpotEventError::InvalidParameters)
        } else {
            Ok(ClaimWindow { start, end })
        }
    }

    /// Whether a claim at time `now` falls inside the window.
    pub fn is_open(&self, now: u64) -> (b: bool)
        ensures
            b == self.spec_is_open(now),
    {
        now >= self.start && now <= self.end
    }
}

} // verus!
