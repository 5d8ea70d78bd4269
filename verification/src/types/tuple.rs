//! The Python `tuple` type.
use vstd::prelude::*;

verus! {

/// Marker for a `tuple` object.
pub struct PyTuple;

/// Methods of a bound tuple; none beyond those of any object.
pub trait PyTupleMethods<'py> {}

} // verus!
