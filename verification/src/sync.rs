//! A cell written once, for values built lazily while the interpreter is held.
use vstd::prelude::*;
use std::sync::OnceLock;

verus! {

/// `std::sync::OnceLock`, a cell that is written at most once.
#[verifier::external_type_specification]
#[verifier::external_body]
#[verifier::reject_recursive_types(T)]
pub struct ExOnceLock<T>(OnceLock<T>);

/// Calls `std::sync::OnceLock::new`, which makes an empty cell.
#[verifier::external_body]
fn once_lock_new<T>() -> OnceLock<T> {
    OnceLock::new()
}

/// Calls `std::sync::OnceLock::get`, which gives the value once the cell has been
/// written and `None` before. Which of the two comes back depends on the earlier calls on
/// the cell, through shared references; no clause states it.
#[verifier::external_body]
fn once_lock_get<T>(cell: &OnceLock<T>) -> Option<&T> {
    cell.get()
}

/// Calls `std::sync::OnceLock::get_or_init` with an initializer that only hands over
/// `value`: it neither panics nor touches the cell, so the call returns, with the value
/// the cell holds, `value` where the cell was empty. Which value the cell holds depends
/// on the earlier calls on the cell; no clause states it.
#[verifier::external_body]
fn once_lock_get_or_set<T>(cell: &OnceLock<T>, value: T) -> &T {
    cell.get_or_init(|| value)
}

/// A value computed on first use and kept afterwards.
#[verifier::reject_recursive_types(T)]
pub struct PyOnceLock<T> {
    inner: OnceLock<T>,
}

impl<T> PyOnceLock<T> {
    /// An empty cell.
    pub fn new() -> Self {
        PyOnceLock { inner: once_lock_new() }
    }

    /// The value, once it has been computed.
    pub fn get(&self) -> Option<&T> {
        once_lock_get(&self.inner)
    }

    /// The value, computed by `f` where the cell is still empty; `_py` is the token of
    /// the interpreter. `f` runs before the cell is written, not under its lock: an `f`
    /// that fills the same cell itself makes its own value the one kept instead of
    /// blocking, and where two calls on an empty cell overlap, each runs its `f` and both
    /// get back the value that was stored first. The cell is written at most once.
    pub fn get_or_init<P, F: FnOnce() -> T>(&self, _py: P, f: F) -> &T
        requires
            f.requires(()),
    {
        match once_lock_get(&self.inner) {
            Some(v) => v,
            None => {
                let value = f();
                once_lock_get_or_set(&self.inner, value)
            },
        }
    }
}

} // verus!
