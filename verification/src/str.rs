//! Owned strings built from format arguments.

use core::fmt::Write;

use vstd::prelude::*;

use crate::error::Error;

verus! {

/// `core::fmt::Arguments` carries a borrowed format string and its
/// arguments; it is opaque to the verifier and is only carried through to
/// the formatting machinery.
#[verifier::external_type_specification]
#[verifier::external_body]
pub struct ExArguments<'a>(core::fmt::Arguments<'a>);

/// Compares two owned strings by contents.
pub fn string_eq(a: &String, b: &String) -> (r: bool)
    ensures
        r == (a@ == b@),
{
    a.eq(b)
}

/// Compares an owned string against a borrowed one by contents.
pub fn string_eq_str(a: &String, b: &str) -> (r: bool)
    ensures
        r == (a@ == b@),
{
    let o = b.to_owned();
    a.eq(&o)
}

/// An owned string produced by formatting.
pub struct CString {
    /// The formatted text.
    pub inner: String,
}

impl CString {
    /// Relies on `core::fmt::Write::write_fmt` into a fresh `String`:
    /// formatting succeeds unless one of the arguments' own formatting
    /// implementations reports an error, which is surfaced here as an
    /// invalid argument rather than a panic.
    #[verifier::external_body]
    pub fn try_from_fmt(args: core::fmt::Arguments<'_>) -> (r: Result<CString, Error>)
        ensures
            r matches Err(e) ==> e == Error::InvalidArgument,
    {
        let mut inner = String::new();
        match inner.write_fmt(args) {
            Ok(()) => Ok(CString { inner }),
            Err(_) => Err(Error::InvalidArgument),
        }
    }

    /// The formatted text.
    pub fn as_string(&self) -> (r: &String)
        ensures
            r@ == self.inner@,
    {
        &self.inner
    }
}

} // verus!
