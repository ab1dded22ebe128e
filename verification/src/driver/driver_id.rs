//! Identifier tables: a fixed-size array of device identifiers, each paired
//! with optional per-entry context data.

use vstd::prelude::*;

verus! {

/// A device id array, followed by context data.
///
/// The array is immutable after construction; entry order is significant,
/// as the matching algorithm takes the first entry that matches.
pub struct IdArray<T, U, const N: usize> {
    /// The identifiers, in match order.
    pub ids: [T; N],
    /// Per-entry context data, surfaced to probe as auxiliary match data.
    pub id_infos: [Option<U>; N],
}

impl<T, U, const N: usize> IdArray<T, U, N> {
    /// Returns the number of items in the ID table.
    pub fn count(&self) -> (r: usize)
        ensures
            r == N,
    {
        N
    }

    /// Creates a new instance of the array.
    ///
    /// The contents are derived from the given identifiers and context
    /// information.
    pub fn new(ids: [T; N], id_infos: [Option<U>; N]) -> (r: Self)
        ensures
            r.ids == ids,
            r.id_infos == id_infos,
    {
        Self { ids, id_infos }
    }
}

} // verus!
