use pyo3_rustpython::sync::PyOnceLock;

#[test]
fn once_lock_is_written_once() {
    let cell: PyOnceLock<i32> = PyOnceLock::new();
    assert_eq!(cell.get(), None);
    assert_eq!(*cell.get_or_init((), || 7), 7);
    assert_eq!(*cell.get_or_init((), || 9), 7);
    assert_eq!(cell.get(), Some(&7));
}

#[test]
fn an_initializer_that_fills_the_cell_keeps_its_own_value() {
    let cell: PyOnceLock<i32> = PyOnceLock::new();
    let v = *cell.get_or_init((), || {
        cell.get_or_init((), || 1);
        2
    });
    assert_eq!(v, 1);
}
