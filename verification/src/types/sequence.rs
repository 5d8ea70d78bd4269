//! The sequence protocol.
use vstd::prelude::*;

verus! {

/// Marker for an object that behaves as a sequence.
pub struct PySequence;

} // verus!
