//! The key-generation capability: produces new short keys on demand.

pub mod counter;
pub mod error;

use vstd::prelude::*;

pub use error::GeneratorError;

verus! {

/// The key-generation capability.
///
/// A generator is modelled by the set of keys it will no longer hand out.
/// A successful call returns a non-empty key that was not issued before and
/// marks it issued, so no stored mapping is ever overwritten by a later
/// create.  Calls are independent: a failure leaves the generator unchanged.
pub trait KeyGenerationService: Sized {
    /// The keys this generator will never hand out again.
    spec fn issued(&self) -> Set<Seq<char>>;

    /// Generates a new key.
    fn generate_key(&mut self) -> (r: Result<String, GeneratorError>)
        ensures
            r matches Ok(key) ==> key@.len() > 0 && !old(self).issued().contains(key@)
                && final(self).issued() == old(self).issued().insert(key@),
            r is Err ==> final(self).issued() == old(self).issued(),
    ;
}

} // verus!
