//! A flag that can be raised and read but never lowered.
use std::sync::atomic::{AtomicBool, Ordering};

use vstd::prelude::*;

verus! {

/// A flag, safe to share between threads, that starts lowered and can only
/// be raised: it offers no operation that lowers it, so once raised it reads
/// as raised for good.
pub struct OneWayFlag {
    raised: AtomicBool,
}

impl OneWayFlag {
    /// A lowered flag.
    pub fn new() -> (r: Self) {
        OneWayFlag { raised: AtomicBool::new(false) }
    }

    /// Raises the flag (it stays raised if it already was).
    pub fn raise(&self) {
        self.raised.store(true, Ordering::SeqCst);
    }

    /// Whether the flag has been raised. The flag is shared with other
    /// threads, so no value is promised.
    pub fn is_raised(&self) -> bool {
        self.raised.load(Ordering::SeqCst)
    }
}

} // verus!
