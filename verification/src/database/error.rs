//! Errors of the storage capability.

use vstd::prelude::*;

verus! {

/// The closed set of failures the storage capability can report.
#[derive(Debug, Clone)]
pub enum DatabaseError {
    /// A key was not found in the database; carries the offending key.
    NotExist(String),
    /// A feature is not implemented by the backend.
    Unimplemented,
    /// The connection with the database failed; carries the detail.
    UnavailableError(String),
    /// An unknown backend condition occurred; carries the detail.
    UnknownError(String),
}

/// The client-visible status that a storage failure maps to.
///
/// The mapping is total: every kind has exactly one status.
pub open spec fn database_error_status(e: DatabaseError) -> u16 {
    match e {
        DatabaseError::NotExist(_) => 404,
        DatabaseError::Unimplemented => 501,
        DatabaseError::UnavailableError(_) => 503,
        DatabaseError::UnknownError(_) => 500,
    }
}

/// The client-visible message that a storage failure maps to.
pub open spec fn database_error_message(e: DatabaseError) -> Seq<char> {
    match e {
        DatabaseError::NotExist(key) => key@,
        DatabaseError::Unimplemented => "Unimplemented error"@,
        DatabaseError::UnavailableError(detail) => detail@,
        DatabaseError::UnknownError(detail) => detail@,
    }
}

impl DatabaseError {
    /// Maps the failure to its client-visible outcome: a status and a message.
    pub fn into_status(self) -> (r: (u16, String))
        ensures
            r.0 == database_error_status(self),
            r.1@ == database_error_message(self),
    {
        match self {
            DatabaseError::NotExist(key) => (404, key),
            DatabaseError::Unimplemented => (501, String::from_str("Unimplemented error")),
            DatabaseError::UnavailableError(detail) => (503, detail),
            DatabaseError::UnknownError(detail) => (500, detail),
        }
    }
}

/// Law: the mapping from storage failures to client-visible statuses is a
/// function of the error kind alone — two failures of the same kind, however
/// their details differ, map to the same status.
pub proof fn lemma_database_error_mapping_stable(e1: DatabaseError, e2: DatabaseError)
    requires
        e1 is NotExist == e2 is NotExist,
        e1 is Unimplemented == e2 is Unimplemented,
        e1 is UnavailableError == e2 is UnavailableError,
        e1 is UnknownError == e2 is UnknownError,
    ensures
        database_error_status(e1) == database_error_status(e2),
{
}

} // verus!
