use pyo3_rustpython::err::ErrorIndicator;

#[test]
fn fetch_gives_back_the_restored_error() {
    let mut ind: ErrorIndicator<&str> = ErrorIndicator::new();
    assert_eq!(ind.fetch(), None);
    ind.restore("first");
    ind.restore("second");
    assert_eq!(ind.fetch(), Some("second"));
    assert_eq!(ind.fetch(), None);
}
