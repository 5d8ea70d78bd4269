//! Typed buffers over the bytes of a Python bytes-like object.
//!
//! The bytes are copied out of the object's buffer; a buffer of elements of type `T` is
//! only made from a buffer whose item size is the size of `T`.
use vstd::prelude::*;
use core::marker::PhantomData;

verus! {

/// Element types that can appear in a Python buffer.
pub trait Element: Copy + 'static {}

impl Element for u8 {}

impl Element for i8 {}

impl Element for i32 {}

/// A contiguous copy of a buffer whose items have the size of `T`.
pub struct PyBuffer<T: Element> {
    data: Vec<u8>,
    _marker: PhantomData<T>,
}

/// Why a buffer cannot be read as elements of a given type.
#[derive(Debug, Clone, Copy, PartialEq, Eq, Structural)]
pub enum BufferError {
    /// The buffer's items are `got` bytes long, the element type `expected` bytes
    /// ("buffer must have <expected>-byte items ..., got itemsize=<got>").
    ItemSize { expected: usize, got: usize },
}

impl<T: Element> View for PyBuffer<T> {
    type V = Seq<u8>;

    /// The bytes of the buffer.
    closed spec fn view(&self) -> Seq<u8> {
        self.data@
    }
}

impl<T: Element> PyBuffer<T> {
    /// Makes a buffer of `T` from the bytes of a buffer whose items are `itemsize` bytes
    /// long; refused where `itemsize` is not the size of `T`.
    pub fn from_bytes(itemsize: usize, data: Vec<u8>) -> (r: Result<Self, BufferError>)
        ensures
            r is Ok <==> itemsize as nat == vstd::layout::size_of::<T>(),
            r matches Ok(b) ==> b@ == data@,
            r matches Err(e) ==> e == (BufferError::ItemSize {
                expected: vstd::layout::size_of::<T>() as usize,
                got: itemsize,
            }),
    {
        let expected = core::mem::size_of::<T>();
        if itemsize != expected {
            return Err(BufferError::ItemSize { expected, got: itemsize });
        }
        Ok(PyBuffer { data, _marker: PhantomData })
    }

    /// The length of the buffer in bytes.
    pub fn len_bytes(&self) -> (r: usize)
        ensures
            r == self@.len(),
    {
        self.data.len()
    }

    /// Whether the buffer is C-contiguous; a copied buffer always is.
    pub fn is_c_contiguous(&self) -> (r: bool)
        ensures
            r,
    {
        true
    }

    /// The bytes of the buffer.
    pub fn as_bytes(&self) -> (r: &[u8])
        ensures
            r@ == self@,
    {
        self.data.as_slice()
    }

    /// The number of whole elements of `T` in the buffer.
    pub fn item_count(&self) -> (r: usize)
        requires
            vstd::layout::size_of::<T>() > 0,
        ensures
            r as nat == self@.len() / vstd::layout::size_of::<T>(),
    {
        let size = core::mem::size_of::<T>();
        self.data.len() / size
    }
}

} // verus!
