use pyo3_rustpython::instance::{can_cast_into, cast_check, marker_kind, targets_mapping, CastError, MarkerKind};

#[test]
fn marker_kinds_from_names() {
    assert_eq!(marker_kind("pyo3_rustpython::types::dict::PyDict"), Some(MarkerKind::Dict));
    assert_eq!(marker_kind("pyo3_rustpython::types::list::PyList"), Some(MarkerKind::List));
    assert_eq!(marker_kind("pyo3_rustpython::types::tuple::PyTuple"), Some(MarkerKind::Tuple));
    assert_eq!(marker_kind("pyo3_rustpython::types::string::PyString"), Some(MarkerKind::Str));
    assert_eq!(marker_kind("pyo3_rustpython::types::module::PyModule"), Some(MarkerKind::Module));
    assert_eq!(marker_kind("app::types::typeobj::PyType"), Some(MarkerKind::Type));
    assert_eq!(marker_kind("app::types::PyTypeError"), None);
    assert_eq!(marker_kind("pyo3_rustpython::types::any::PyAny"), None);
    assert_eq!(marker_kind("PyDict"), None);
    assert_eq!(marker_kind("pyo3_rustpython::types::primitives::PyInt"), Some(MarkerKind::Int));
    assert_eq!(marker_kind("pyo3_rustpython::types::primitives::PyFloat"), Some(MarkerKind::Float));
    assert_eq!(marker_kind("pyo3_rustpython::types::primitives::PyBool"), Some(MarkerKind::Bool));
    assert_eq!(marker_kind("pyo3_rustpython::types::set::PySet"), Some(MarkerKind::SetType));
    assert_eq!(marker_kind("pyo3_rustpython::types::set::PyFrozenSet"), Some(MarkerKind::FrozenSet));
    assert_eq!(marker_kind("pyo3_rustpython::types::bytes::PyBytes"), Some(MarkerKind::Bytes));
    assert_eq!(marker_kind("pyo3_rustpython::types::none::PyNone"), Some(MarkerKind::NoneType));
}

#[test]
fn casts_to_scalar_markers_are_checked() {
    let int = "pyo3_rustpython::types::primitives::PyInt";
    assert_eq!(cast_check(int, false, false), Err(CastError::WrongType));
    assert_eq!(cast_check(int, false, true), Ok(()));
    let bytes = "pyo3_rustpython::types::bytes::PyBytes";
    assert_eq!(cast_check(bytes, false, false), Err(CastError::WrongType));
}

#[test]
fn mapping_targets() {
    assert!(targets_mapping("pyo3_rustpython::types::mapping::PyMapping"));
    assert!(!targets_mapping("pyo3_rustpython::types::dict::PyDict"));
}

#[test]
fn cast_outcomes() {
    let mapping = "pyo3_rustpython::types::mapping::PyMapping";
    assert_eq!(cast_check(mapping, true, false), Ok(()));
    assert_eq!(cast_check(mapping, false, true), Err(CastError::NotAMapping));
    let dict = "pyo3_rustpython::types::dict::PyDict";
    assert_eq!(cast_check(dict, false, true), Ok(()));
    assert_eq!(cast_check(dict, true, false), Err(CastError::WrongType));
    let any = "pyo3_rustpython::types::any::PyAny";
    assert_eq!(cast_check(any, false, false), Ok(()));
}

#[test]
fn cast_into_outcomes() {
    let list = "pyo3_rustpython::types::list::PyList";
    assert!(can_cast_into(list, true, false));
    assert!(can_cast_into(list, false, true));
    assert!(!can_cast_into(list, false, false));
    let other = "app::MyClass";
    assert!(can_cast_into(other, true, false));
    assert!(!can_cast_into(other, false, true));
}
