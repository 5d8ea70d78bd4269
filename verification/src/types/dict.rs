//! The Python `dict` type.
use vstd::prelude::*;

verus! {

/// Marker for a `dict` object.
pub struct PyDict;

} // verus!
