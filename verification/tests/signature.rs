use pyo3_rustpython::signature::{
    compact_type, function_arg_plan, is_scalar_text, method_arg_plan, strip_leading_lifetime, ArgPlan,
    OptPlan,
};

#[test]
fn compacting_drops_spaces() {
    assert_eq!(compact_type("Option < & str >"), "Option<&str>".chars().collect::<Vec<char>>());
}

#[test]
fn scalar_names() {
    assert!(is_scalar_text(&"u64".chars().collect()));
    assert!(is_scalar_text(&"bool".chars().collect()));
    assert!(!is_scalar_text(&"String".chars().collect()));
    assert!(!is_scalar_text(&"i128".chars().collect()));
}

#[test]
fn leading_lifetimes() {
    assert_eq!(strip_leading_lifetime("'py Bound<PyAny>"), "Bound<PyAny>");
    assert_eq!(strip_leading_lifetime("'_ str"), "str");
    assert_eq!(strip_leading_lifetime("str"), "str");
    assert_eq!(strip_leading_lifetime("'a"), "");
}

#[test]
fn function_argument_plans() {
    assert!(matches!(function_arg_plan("Python<'py>", false), ArgPlan::Python));
    assert!(matches!(function_arg_plan("usize", true), ArgPlan::FromPyWith));
    assert!(matches!(function_arg_plan("& Bound < '_ , PyAny >", false), ArgPlan::RefBound));
    assert!(matches!(function_arg_plan("&'a Py<PyAny>", false), ArgPlan::RefPy(t) if t == "Py<PyAny>"));
    assert!(matches!(function_arg_plan("&str", false), ArgPlan::RefExtract(t) if t == "str"));
    assert!(matches!(function_arg_plan("Option<i32>", false), ArgPlan::Optional(OptPlan::Scalar(t)) if t == "i32"));
    assert!(matches!(function_arg_plan("Option<&Bound<'_,PyAny>>", false), ArgPlan::Optional(OptPlan::RefBound)));
    assert!(matches!(function_arg_plan("Option<String>", false), ArgPlan::Optional(OptPlan::OwnedString)));
    assert!(matches!(function_arg_plan("String", false), ArgPlan::OwnedString));
    assert!(matches!(function_arg_plan("i64", false), ArgPlan::Signed(t) if t == "i64"));
    assert!(matches!(function_arg_plan("u8", false), ArgPlan::Unsigned(t) if t == "u8"));
    assert!(matches!(function_arg_plan("f64", false), ArgPlan::Float(t) if t == "f64"));
    assert!(matches!(function_arg_plan("bool", false), ArgPlan::Bool));
    assert!(matches!(function_arg_plan("Vec < u8 >", false), ArgPlan::Bytes));
    assert!(matches!(function_arg_plan("Bound<'py, PyDict>", false), ArgPlan::BoundValue));
    assert!(matches!(function_arg_plan("Vec<i32>", false), ArgPlan::Extract(t) if t == "Vec<i32>"));
}

#[test]
fn method_argument_plans() {
    assert!(matches!(method_arg_plan("&str"), ArgPlan::Str));
    assert!(matches!(method_arg_plan("& Bound<'_, PyAny>"), ArgPlan::RefBound));
    assert!(matches!(method_arg_plan("&Py<PyAny>"), ArgPlan::RefPy(t) if t == "Py<PyAny>"));
    assert!(matches!(method_arg_plan("Option<&Bound<'_,PyAny>>"), ArgPlan::Optional(OptPlan::RefBound)));
    assert!(matches!(method_arg_plan("Option<u32>"), ArgPlan::Optional(OptPlan::Scalar(t)) if t == "u32"));
    assert!(matches!(method_arg_plan("Vec<u8>"), ArgPlan::Extract(t) if t == "Vec<u8>"));
    assert!(matches!(method_arg_plan("bool"), ArgPlan::Bool));
}
