//! The locks that serialize the processing of each queue's events.

use vstd::prelude::*;
use crate::app::locker::TagLock;

verus! {

/// Per-queue locks, keyed by the queue's name.
pub struct EventLocker(pub TagLock<String>);

impl EventLocker {
    /// Locks for no queue yet.
    pub fn new() -> Self {
        EventLocker(TagLock::new())
    }
}

impl std::ops::Deref for EventLocker {
    type Target = TagLock<String>;

    fn deref(&self) -> (r: &TagLock<String>)
        ensures
            *r == self.0,
    {
        &self.0
    }
}

} // verus!
