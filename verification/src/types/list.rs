//! The Python `list` type.
use vstd::prelude::*;

verus! {

/// Marker for a `list` object.
pub struct PyList;

} // verus!
