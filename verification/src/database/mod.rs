//! The storage capability: stores and retrieves key-to-URL mappings.

pub mod error;
pub mod memory;

use vstd::prelude::*;

pub use error::DatabaseError;

verus! {

/// The storage capability.
///
/// A store is modelled by the map of key-to-URL associations it currently
/// holds.  The contract is append-only: the only change a method may make to
/// the model is the insertion performed by a successful `insert_key`.
///
/// Any conforming backend can stand behind this trait; failures that depend
/// on the backend's health (unavailable, unknown) may occur on any call, so
/// the contract pins the outcome of each result rather than promising
/// success.  A `NotExist` failure is authoritative: the backend reports it
/// only when no mapping for the key exists.
pub trait Database: Sized {
    /// The mappings currently stored, key to target URL.
    spec fn db_model(&self) -> Map<Seq<char>, Seq<char>>;

    /// Retrieves the URL associated with the given key.
    fn get_key_url(&self, key_id: &String) -> (r: Result<String, DatabaseError>)
        ensures
            r matches Ok(url) ==> self.db_model().contains_key(key_id@) && url@
                == self.db_model()[key_id@],
            r matches Err(e) ==> (e matches DatabaseError::NotExist(k) ==> !self.db_model()
                .contains_key(key_id@) && k@ == key_id@),
            r matches Err(e) ==> !(e is Unimplemented),
    ;

    /// Inserts a new key-URL mapping.
    ///
    /// Keys are unique by construction (the key-generation capability owns
    /// that guarantee), so an insert is a plain create-once write.
    fn insert_key(&mut self, key_id: String, url: String) -> (r: Result<(), DatabaseError>)
        ensures
            r is Ok ==> final(self).db_model() == old(self).db_model().insert(key_id@, url@),
            r is Err ==> final(self).db_model() == old(self).db_model(),
            r matches Err(e) ==> (e is UnavailableError || e is UnknownError),
    ;
}

} // verus!
