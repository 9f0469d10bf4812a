//! The flag by which the decode thread tells the pull side that it has
//! finished.

use std::sync::atomic::AtomicBool;
use std::sync::atomic::Ordering;
use std::sync::Arc;
use vstd::prelude::*;

verus! {

/// A flag shared between threads. It is written by one thread and read by
/// others; what a read gives depends on when it happens.
pub struct FinishedFlag {
    flag: Arc<AtomicBool>,
}

impl FinishedFlag {
    /// Takes the shared flag: what is set here is set for every holder of it.
    pub fn new(flag: Arc<AtomicBool>) -> (shared: Self)
        ensures
            shared.shared_flag() == flag,
    {
        FinishedFlag { flag }
    }

    /// Whether the flag is set at this moment. The answer is that of the
    /// shared flag, which another thread may set at any time, so nothing is
    /// known of it beforehand.
    pub fn is_set(&self) -> bool {
        self.flag.load(Ordering::Relaxed)
    }

    /// Sets the flag.
    pub fn set(&self) {
        self.flag.store(true, Ordering::Relaxed);
    }

    /// The flag that is shared.
    pub closed spec fn shared_flag(&self) -> Arc<AtomicBool> {
        self.flag
    }
}

} // verus!
