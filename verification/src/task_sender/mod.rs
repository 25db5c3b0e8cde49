//! The event-dispatch capability: best-effort delivery of visit events.

pub mod memory;

use vstd::prelude::*;

use crate::visit::{encode_visit_event, task_encoding, VisitEvent};

verus! {

/// The failure a transport reports when a task could not be handed over.
pub struct SendError {
    /// What went wrong, for observability only.
    pub message: String,
}

/// A transport that delivers serialized tasks.
///
/// A transport is modelled by the sequence of byte payloads it has accepted,
/// in order.  A successful send appends exactly the given payload; a failed
/// send accepts nothing.
pub trait TaskSenderBytes: Sized {
    /// The payloads accepted so far, oldest first.
    spec fn sent(&self) -> Seq<Seq<u8>>;

    /// Hands one serialized task to the transport.
    fn send_task(&mut self, task: Vec<u8>) -> (r: Result<(), SendError>)
        ensures
            r is Ok ==> final(self).sent() == old(self).sent().push(task@),
            r is Err ==> final(self).sent() == old(self).sent(),
    ;
}

/// The event-dispatch capability.
///
/// A sender is modelled by the wire images of the events it has accepted, in
/// order.  A successful dispatch appends exactly the encoding of the given
/// event; a failed dispatch accepts nothing.  Delivery beyond acceptance is
/// the transport's business.
pub trait TaskSender: Sized {
    /// The wire images of the events accepted so far, oldest first.
    spec fn dispatched(&self) -> Seq<Seq<u8>>;

    /// Hands one visit event to the dispatcher.
    fn send_task(&mut self, task: VisitEvent) -> (r: Result<(), SendError>)
        ensures
            r is Ok ==> final(self).dispatched() == old(self).dispatched().push(
                task_encoding(task.tag@, task.seconds, task.nanos),
            ),
            r is Err ==> final(self).dispatched() == old(self).dispatched(),
    ;
}

/// The adapter from a byte transport to an event dispatcher: it serializes
/// each event and hands the bytes to the transport.
pub struct EncodingTaskSender<T: TaskSenderBytes> {
    /// The transport serialized events are sent through.
    pub transport: T,
}

impl<T: TaskSenderBytes> EncodingTaskSender<T> {
    /// Wraps a byte transport.
    pub fn new(transport: T) -> (r: Self)
        ensures
            r.transport == transport,
    {
        EncodingTaskSender { transport }
    }
}

impl<T: TaskSenderBytes> TaskSender for EncodingTaskSender<T> {
    open spec fn dispatched(&self) -> Seq<Seq<u8>> {
        self.transport.sent()
    }

    fn send_task(&mut self, task: VisitEvent) -> (r: Result<(), SendError>) {
        let bytes = encode_visit_event(&task);
        self.transport.send_task(bytes)
    }
}

} // verus!
