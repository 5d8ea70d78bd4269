//! Python iterators.
use vstd::prelude::*;

verus! {

/// Marker for an iterator object.
pub struct PyIterator;

} // verus!
