use pyo3_rustpython::CompareOp;

#[test]
fn codes_read_as_operations() {
    assert_eq!(CompareOp::from_code(0), Some(CompareOp::Lt));
    assert_eq!(CompareOp::from_code(1), Some(CompareOp::Le));
    assert_eq!(CompareOp::from_code(2), Some(CompareOp::Eq));
    assert_eq!(CompareOp::from_code(3), Some(CompareOp::Ne));
    assert_eq!(CompareOp::from_code(4), Some(CompareOp::Gt));
    assert_eq!(CompareOp::from_code(5), Some(CompareOp::Ge));
}

#[test]
fn invalid_codes_are_refused() {
    assert_eq!(CompareOp::from_code(6), None);
    assert_eq!(CompareOp::from_code(-1), None);
    assert_eq!(CompareOp::from_code(i32::MAX), None);
}

#[test]
fn code_round_trip() {
    for op in [CompareOp::Lt, CompareOp::Le, CompareOp::Eq, CompareOp::Ne, CompareOp::Gt, CompareOp::Ge] {
        assert_eq!(CompareOp::from_code(op.code()), Some(op));
    }
    assert_eq!(CompareOp::Ge.code(), 5);
}
