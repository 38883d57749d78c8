use vstd::prelude::*;

verus! {

/// The error type of the storage operator library.
#[verifier::external_type_specification]
#[verifier::external_body]
pub struct ExOpendalError(opendal::Error);

/// Why a cache backend could not be set up.
#[derive(Debug)]
pub enum BuildlessError {
    /// The host is neither Windows nor Unix-like: no agent paths are known.
    UnsupportedPlatform,
    /// The requested transport has no implementation.
    UnsupportedTransport,
    /// The storage operator refused the resolved configuration.
    Backend(opendal::Error),
}

} // verus!
