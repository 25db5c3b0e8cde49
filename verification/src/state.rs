//! The service state: the immutable composition of the three capabilities.

use vstd::prelude::*;

use crate::database::Database;
use crate::key_generator::KeyGenerationService;
use crate::task_sender::TaskSender;

verus! {

/// The capability set handed to every request handler.
///
/// It is assembled once at startup and the fields are never reassigned: the
/// handlers only call the capabilities' methods.
pub struct AppState<D, K, T> {
    /// The storage capability.
    pub db_layer: D,
    /// The event-dispatch capability.
    pub task_sender: T,
    /// The key-generation capability.
    pub key_generator: K,
}

impl<D: Database, K: KeyGenerationService, T: TaskSender> AppState<D, K, T> {
    /// Bundles the three capabilities.
    pub fn new(db_layer: D, task_sender: T, key_generator: K) -> (r: Self)
        ensures
            r.db_layer == db_layer,
            r.task_sender == task_sender,
            r.key_generator == key_generator,
    {
        AppState { db_layer, task_sender, key_generator }
    }
}

} // verus!
