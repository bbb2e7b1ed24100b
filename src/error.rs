//! Failures of the library.

use vstd::prelude::*;

verus! {

#[verifier::external_type_specification]
#[verifier::external_body]
pub struct ExSledError(sled::Error);

/// What can go wrong while making or storing a key.
#[derive(Debug)]
pub enum BrefError {
    /// The system clock reads a time before the Unix epoch.
    Clock,
    /// The storage engine failed (I/O, corruption, ...).
    Storage(sled::Error),
}

} // verus!
