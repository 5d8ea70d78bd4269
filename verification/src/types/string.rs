//! The Python `str` type.
use vstd::prelude::*;

verus! {

/// Marker for a `str` object.
pub struct PyString;

} // verus!
