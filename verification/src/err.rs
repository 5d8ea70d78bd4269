//! The indicator of the current exception: `restore` sets it, `fetch` takes it out.
use vstd::prelude::*;

verus! {

/// The exception that is currently raised, if any.
pub struct ErrorIndicator<E> {
    current: Option<E>,
}

impl<E> View for ErrorIndicator<E> {
    type V = Option<E>;

    /// The exception held.
    closed spec fn view(&self) -> Option<E> {
        self.current
    }
}

impl<E> ErrorIndicator<E> {
    /// An indicator with no exception.
    pub fn new() -> (r: Self)
        ensures
            r@ is None,
    {
        ErrorIndicator { current: None }
    }

    /// Makes `e` the current exception, in place of any earlier one.
    pub fn restore(&mut self, e: E)
        ensures
            final(self)@ == Some(e),
    {
        self.current = Some(e);
    }

    /// Takes the current exception out, leaving none.
    pub fn fetch(&mut self) -> (r: Option<E>)
        ensures
            r == old(self)@,
            final(self)@ is None,
    {
        self.current.take()
    }
}

} // verus!
