//! The Python types that values are bound to.
use vstd::prelude::*;

pub mod any;
pub mod bytes;
pub mod callable;
pub mod dict;
pub mod iterator;
pub mod list;
pub mod mapping;
pub mod module;
pub mod none;
pub mod primitives;
pub mod sequence;
pub mod set;
pub mod string;
pub mod tuple;

pub use any::PyAny;
pub use bytes::PyBytes;
pub use callable::{PyCFunction, PyFunction};
pub use dict::PyDict;
pub use iterator::PyIterator;
pub use list::PyList;
pub use mapping::{PyMapping, TypeRegistry};
pub use module::{PyModule, WrapPyFn};
pub use none::PyNone;
pub use primitives::{PyBool, PyFloat, PyInt, PyLong};
pub use sequence::PySequence;
pub use set::{PyFrozenSet, PySet};
pub use string::PyString;
pub use tuple::{PyTuple, PyTupleMethods};

verus! {

/// Methods of a bound type object; none beyond those of any object.
pub trait PyTypeMethods {}

} // verus!
