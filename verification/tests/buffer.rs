use pyo3_rustpython::buffer::{BufferError, PyBuffer};

#[test]
fn byte_buffer_from_bytes() {
    let b = PyBuffer::<u8>::from_bytes(1, vec![1, 2, 3]).ok().unwrap();
    assert_eq!(b.len_bytes(), 3);
    assert!(b.is_c_contiguous());
    assert_eq!(b.as_bytes(), &[1u8, 2, 3][..]);
    assert_eq!(b.item_count(), 3);
}

#[test]
fn int_buffer_counts_items() {
    let b = PyBuffer::<i32>::from_bytes(4, vec![0; 10]).ok().unwrap();
    assert_eq!(b.len_bytes(), 10);
    assert_eq!(b.item_count(), 2);
}

#[test]
fn item_size_mismatch_is_refused() {
    match PyBuffer::<u8>::from_bytes(4, vec![0; 8]) {
        Err(e) => assert_eq!(e, BufferError::ItemSize { expected: 1, got: 4 }),
        Ok(_) => panic!("a 4-byte item buffer was read as bytes"),
    }
    match PyBuffer::<i32>::from_bytes(1, vec![0; 8]) {
        Err(e) => assert_eq!(e, BufferError::ItemSize { expected: 4, got: 1 }),
        Ok(_) => panic!("a byte buffer was read as i32"),
    }
}
