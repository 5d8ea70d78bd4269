//! The Python `None` object.
use vstd::prelude::*;

verus! {

/// Marker for `None`.
pub struct PyNone;

} // verus!
