//! The Python `set` and `frozenset` types.
use vstd::prelude::*;

verus! {

/// Marker for a `set` object.
pub struct PySet;

/// Marker for a `frozenset` object.
pub struct PyFrozenSet;

} // verus!
