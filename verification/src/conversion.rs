//! Conversions between Python values and Rust values that need no interpreter.
use vstd::prelude::*;
use vstd::std_specs::convert::FromSpecImpl;

verus! {

/// An argument read by its truth value, as Python's `bool(x)` reads it.
pub struct ArgIntoBool(pub bool);

impl From<ArgIntoBool> for bool {
    fn from(val: ArgIntoBool) -> (r: bool) {
        val.0
    }
}

impl FromSpecImpl<ArgIntoBool> for bool {
    open spec fn obeys_from_spec() -> bool {
        true
    }

    open spec fn from_spec(val: ArgIntoBool) -> bool {
        val.0
    }
}

impl From<&ArgIntoBool> for bool {
    fn from(val: &ArgIntoBool) -> (r: bool) {
        val.0
    }
}

impl FromSpecImpl<&ArgIntoBool> for bool {
    open spec fn obeys_from_spec() -> bool {
        true
    }

    open spec fn from_spec(val: &ArgIntoBool) -> bool {
        val.0
    }
}

} // verus!
