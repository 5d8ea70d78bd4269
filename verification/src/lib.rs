//! A pyo3-style binding layer over the RustPython interpreter: the verified rules of its
//! attribute macros and of its runtime shim.
use vstd::prelude::*;

pub mod text;
pub mod tokens;
pub mod attrs;
pub mod signature;
pub mod results;
pub mod methods;
pub mod pyclass;
pub mod slots;
pub mod ffi;
pub mod types;
pub mod instance;
pub mod buffer;
pub mod conversion;
pub mod err;
pub mod sync;
pub mod codegen;

pub use conversion::ArgIntoBool;
pub use pyclass::CompareOp;
pub use types::module::WrapPyFn;

verus! {

/// The Python-side name of a type and the module it belongs to.
pub trait PyTypeInfo {
    const NAME: &'static str;
    const MODULE: Option<&'static str>;
}

} // verus!
