use pyo3_rustpython::types::module::import_path;
use pyo3_rustpython::types::TypeRegistry;

#[test]
fn dotted_import_path() {
    assert_eq!(import_path("collections.abc"), vec!["collections".to_string(), "abc".to_string()]);
    assert_eq!(import_path("os"), vec!["os".to_string()]);
    assert_eq!(import_path("a.b.c"), vec!["a".to_string(), "b".to_string(), "c".to_string()]);
    assert_eq!(import_path(""), vec![String::new()]);
}

#[test]
fn import_steps_rejoin_to_the_name() {
    for name in ["collections.abc", "os", "a.b.c", ".a.", ""] {
        assert_eq!(import_path(name).join("."), name);
    }
}

#[test]
fn registry_remembers_registered_classes() {
    let mut r = TypeRegistry::new();
    assert!(!r.is_registered(7));
    r.register(7);
    assert!(r.is_registered(7));
    assert!(!r.is_registered(8));
    r.register(7);
    assert!(r.is_registered(7));
}
