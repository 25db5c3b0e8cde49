//! In-memory transports for visit events.
//!
//! Two reference implementations of [`TaskSenderBytes`]: one records every
//! payload it accepts, one refuses every payload.  They serve tests — in
//! particular tests that a redirect's outcome does not depend on whether
//! dispatch succeeds.

use vstd::prelude::*;

use crate::task_sender::{SendError, TaskSenderBytes};

verus! {

/// A transport that keeps every accepted payload in memory.
pub struct MemoryTaskSender {
    log: Vec<Vec<u8>>,
}

impl MemoryTaskSender {
    /// A transport that has accepted nothing yet.
    pub fn new() -> (r: Self)
        ensures
            r.sent() == Seq::<Seq<u8>>::empty(),
    {
        let r = MemoryTaskSender { log: Vec::new() };
        proof {
            assert(r.sent() =~= Seq::<Seq<u8>>::empty());
        }
        r
    }

    /// The payloads accepted so far, oldest first.
    pub fn tasks(&self) -> (r: &Vec<Vec<u8>>)
        ensures
            r.deep_view() == self.sent(),
    {
        &self.log
    }
}

impl TaskSenderBytes for MemoryTaskSender {
    closed spec fn sent(&self) -> Seq<Seq<u8>> {
        self.log.deep_view()
    }

    fn send_task(&mut self, task: Vec<u8>) -> (r: Result<(), SendError>) {
        let ghost payload = task@;
        self.log.push(task);
        proof {
            assert(self.sent() =~~= old(self).sent().push(payload));
        }
        Ok(())
    }
}

/// A transport that refuses every payload.
pub struct FailingTaskSender {}

impl FailingTaskSender {
    /// A transport that will refuse everything; it never accepts a payload.
    pub fn new() -> (r: Self)
        ensures
            r.sent() == Seq::<Seq<u8>>::empty(),
    {
        FailingTaskSender {}
    }
}

impl TaskSenderBytes for FailingTaskSender {
    closed spec fn sent(&self) -> Seq<Seq<u8>> {
        Seq::empty()
    }

    fn send_task(&mut self, task: Vec<u8>) -> (r: Result<(), SendError>) {
        Err(SendError { message: String::from_str("transport unavailable") })
    }
}

} // verus!
