//! The type of an arbitrary Python object.
use vstd::prelude::*;

verus! {

/// Marker for an object of any type.
pub struct PyAny;

} // verus!
