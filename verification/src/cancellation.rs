//! A flag, shared between clones, that asks running work to stop.
use std::sync::Arc;

use vstd::prelude::*;

use crate::one_way_flag::OneWayFlag;

verus! {

/// A cancellation flag; clones share the same flag, so a cancel through one
/// clone is seen through all of them. The flag is a `OneWayFlag`, which has
/// no operation that lowers it, so once cancelled it stays cancelled.
#[derive(Clone)]
pub struct Cancellation {
    flag: Arc<OneWayFlag>,
}

/// The error returned by `Cancellation::check` once cancellation was requested.
#[derive(Debug, Clone, PartialEq, Eq)]
pub struct Cancelled;

/// The outcome of a check given what the flag read: `Err(Cancelled)`
/// exactly when it read as cancelled.
pub open spec fn check_outcome(cancelled: bool) -> Result<(), Cancelled> {
    if cancelled {
        Err(Cancelled)
    } else {
        Ok(())
    }
}

impl Cancellation {
    /// A fresh flag that is not cancelled.
    pub fn new() -> (r: Self) {
        Cancellation { flag: Arc::new(OneWayFlag::new()) }
    }

    /// Whether cancellation has been requested through this flag or a clone
    /// of it. The flag is shared with other threads, so no value is promised.
    pub fn is_cancelled(&self) -> bool {
        self.flag.is_raised()
    }

    /// Requests cancellation, for this flag and all its clones.
    pub fn cancel(&mut self)
        ensures
            *final(self) == *old(self),
    {
        self.flag.raise();
    }

    /// `Err(Cancelled)` if the flag reads as cancelled, else `Ok(())`.
    /// The flag is shared with other threads, so which outcome comes is not
    /// promised; `outcome` says what each reading gives.
    pub fn check(&self) -> (r: Result<(), Cancelled>) {
        let cancelled = self.is_cancelled();
        Self::outcome(cancelled)
    }

    /// The outcome of a check once the flag has been read as `cancelled`.
    pub fn outcome(cancelled: bool) -> (r: Result<(), Cancelled>)
        ensures
            r == check_outcome(cancelled),
    {
        if cancelled {
            return Err(Cancelled);
        }
        Ok(())
    }
}

impl Default for Cancellation {
    fn default() -> (r: Self) {
        Self::new()
    }
}

} // verus!
