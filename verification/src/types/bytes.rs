//! The Python `bytes` type.
use vstd::prelude::*;

verus! {

/// Marker for a `bytes` object.
pub struct PyBytes;

} // verus!
