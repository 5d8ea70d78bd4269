//! Python callables.
use vstd::prelude::*;

verus! {

/// Marker for a Python function.
pub struct PyFunction;

/// Marker for a function implemented in Rust.
pub struct PyCFunction;

} // verus!
