//! Errors of the key-generation capability.

use vstd::prelude::*;

verus! {

/// The closed set of failures the key-generation capability can report.
#[derive(Debug, Clone)]
pub enum GeneratorError {
    /// An error occurred while connecting to the generator.
    ConnectionError,
    /// The requested generator was not found.
    GeneratorNotFound,
    /// The request has no permission to generate a key.
    NotPermission,
    /// The request to the generator was invalid.
    BadRequest,
    /// An unknown or unexpected error occurred; carries the detail.
    UnknownError(String),
}

/// The client-visible status that a key-generation failure maps to.
///
/// The mapping is total: every kind has exactly one status.
pub open spec fn generator_error_status(e: GeneratorError) -> u16 {
    match e {
        GeneratorError::ConnectionError => 503,
        GeneratorError::GeneratorNotFound => 404,
        GeneratorError::NotPermission => 403,
        GeneratorError::BadRequest => 400,
        GeneratorError::UnknownError(_) => 500,
    }
}

/// The client-visible message that a key-generation failure maps to.
pub open spec fn generator_error_message(e: GeneratorError) -> Seq<char> {
    match e {
        GeneratorError::ConnectionError => "Connection error"@,
        GeneratorError::GeneratorNotFound => "Generator not found"@,
        GeneratorError::NotPermission => "Not Permissions"@,
        GeneratorError::BadRequest => "Bad Request generating key"@,
        GeneratorError::UnknownError(detail) => detail@,
    }
}

impl GeneratorError {
    /// Maps the failure to its client-visible outcome: a status and a message.
    pub fn into_status(self) -> (r: (u16, String))
        ensures
            r.0 == generator_error_status(self),
            r.1@ == generator_error_message(self),
    {
        match self {
            GeneratorError::ConnectionError => (503, String::from_str("Connection error")),
            GeneratorError::GeneratorNotFound => (404, String::from_str("Generator not found")),
            GeneratorError::NotPermission => (403, String::from_str("Not Permissions")),
            GeneratorError::BadRequest => (400, String::from_str("Bad Request generating key")),
            GeneratorError::UnknownError(detail) => (500, detail),
        }
    }
}

/// Law: the mapping from key-generation failures to client-visible statuses is
/// a function of the error kind alone — two failures of the same kind, however
/// their details differ, map to the same status.
pub proof fn lemma_generator_error_mapping_stable(e1: GeneratorError, e2: GeneratorError)
    requires
        e1 is ConnectionError == e2 is ConnectionError,
        e1 is GeneratorNotFound == e2 is GeneratorNotFound,
        e1 is NotPermission == e2 is NotPermission,
        e1 is BadRequest == e2 is BadRequest,
        e1 is UnknownError == e2 is UnknownError,
    ensures
        generator_error_status(e1) == generator_error_status(e2),
{
}

} // verus!
