//! Python booleans, integers and floats.
use vstd::prelude::*;

verus! {

/// Marker for a `bool` object.
pub struct PyBool;

/// Marker for a `float` object.
pub struct PyFloat;

/// Marker for an `int` object.
pub struct PyInt;

/// The older name of `PyInt`.
pub type PyLong = PyInt;

} // verus!
