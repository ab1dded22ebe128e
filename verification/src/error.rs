//! The error taxonomy of the driver-model core.
//!
//! Matching failures are never surfaced as errors: the matching algorithm
//! treats them as "no match".  Registration and probe errors are returned to
//! the direct caller; a fatal boot-sequence error is unrecoverable and is
//! expected to halt the caller.

use vstd::prelude::*;

verus! {

/// An error of the driver-model core.
#[derive(Clone, Copy, Debug, PartialEq, Eq, Structural)]
pub enum Error {
    /// A malformed identifier table or a duplicate registration.
    InvalidArgument,
    /// An optional capability was invoked but is absent.  Callers are meant
    /// to check slot presence before invoking; absence is itself the
    /// "not implemented" signal.
    Unsupported,
    /// The resource is already registered or claimed.
    Busy,
    /// A driver-supplied probe routine failed; the cause is opaque to the
    /// core.
    ProbeFailed,
    /// A boot-sequence routine returned a strictly negative status.
    Fatal,
}

} // verus!
