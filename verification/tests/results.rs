use pyo3_rustpython::results::{
    function_return_plan, getter_needs_wrapper, getter_plan, iter_returns_self, method_needs_wrapper,
    plain_return_conversion, result_conversion_of, result_return_plan, return_type_text,
    returns_pyo3_result, setter_needs_wrapper, setter_returns_result, Conversion, FnReturn,
    GetterArg, GetterConversion,
};

#[test]
fn function_returns() {
    assert!(function_return_plan(None) == FnReturn::NoneValue);
    assert!(function_return_plan(Some("()")) == FnReturn::NoneValue);
    assert!(function_return_plan(Some("PyResult < () >")) == FnReturn::ResultUnit);
    assert!(function_return_plan(Some("PyResult<i32>")) == FnReturn::ResultValue);
    assert!(function_return_plan(Some("String")) == FnReturn::Value);
}

#[test]
fn return_text_is_compacted() {
    assert_eq!(return_type_text(Some("Vec < u8 >")), "Vec<u8>".chars().collect::<Vec<char>>());
    assert!(return_type_text(None).is_empty());
}

#[test]
fn plain_conversions() {
    assert!(plain_return_conversion(Some("()")) == Conversion::NoneValue);
    assert!(plain_return_conversion(Some("Option<i32>")) == Conversion::IntoPyObject);
    assert!(plain_return_conversion(Some("(i32, i32)")) == Conversion::IntoPyObject);
    assert!(plain_return_conversion(Some("u64")) == Conversion::ToPyObject);
    assert!(plain_return_conversion(Some("String")) == Conversion::ToPyObject);
    assert!(plain_return_conversion(Some("Py<PyAny>")) == Conversion::IntoObject);
    assert!(plain_return_conversion(Some("&str")) == Conversion::StrToString);
    assert!(plain_return_conversion(Some("Vec<u8>")) == Conversion::IntoPyObject);
}

#[test]
fn result_conversions_of_renderings() {
    assert!(result_conversion_of(None) == Conversion::Passthrough);
    assert!(result_conversion_of(Some("()")) == Conversion::NoneValue);
    assert!(result_conversion_of(Some("Option<i32>")) == Conversion::IntoPyObject);
    assert!(result_conversion_of(Some("(i32 , i32)")) == Conversion::IntoPyObject);
    assert!(result_conversion_of(Some("bool")) == Conversion::ToPyObject);
    assert!(result_conversion_of(Some("Py<PyAny>")) == Conversion::IntoObject);
    assert!(result_conversion_of(Some("&str")) == Conversion::StrToString);
    assert!(result_conversion_of(Some("Vec < u8 >")) == Conversion::ToPyObject);
}

#[test]
fn result_plans_render_the_inner_type() {
    let p = result_return_plan(Some("PyResult<()>"));
    assert!(p.conversion == Conversion::NoneValue);
    assert!(!p.rustpython_result);
    // The renderer writes `Option < i32 >`, which does not start with `Option<`.
    let p = result_return_plan(Some("PyResult<Option<i32>>"));
    assert!(p.conversion == Conversion::ToPyObject);
    let p = result_return_plan(Some("PyResult<(i32, i32)>"));
    assert!(p.conversion == Conversion::IntoPyObject);
    let p = result_return_plan(Some("rustpython_vm::PyResult<bool>"));
    assert!(p.conversion == Conversion::ToPyObject);
    assert!(p.rustpython_result);
    let p = result_return_plan(Some("i32"));
    assert!(p.conversion == Conversion::Passthrough);
}

#[test]
fn result_plans_keep_a_named_inner_type() {
    let p = result_return_plan(Some("PyResult<MyType>"));
    assert!(p.conversion == Conversion::ToPyObject);
    assert!(p.conversion == result_conversion_of(Some("MyType")));
    assert!(!p.rustpython_result);
    let p = result_return_plan(Some("PyResult<MyType>"));
    assert!(p.conversion != Conversion::NoneValue);
}

#[test]
fn pyo3_result_detection() {
    assert!(returns_pyo3_result(Some("PyResult<i32>")));
    assert!(returns_pyo3_result(Some("pyo3::PyResult<i32>")));
    assert!(!returns_pyo3_result(Some("rustpython_vm::PyResult<i32>")));
    assert!(!returns_pyo3_result(None));
}

#[test]
fn wrapper_needs() {
    assert!(method_needs_wrapper(true, None, false));
    assert!(method_needs_wrapper(false, Some("PyResult<i32>"), false));
    assert!(method_needs_wrapper(false, None, true));
    assert!(method_needs_wrapper(false, Some("Vec<i32>"), false));
    assert!(method_needs_wrapper(false, Some("Bound<'py, PyAny>"), false));
    assert!(!method_needs_wrapper(false, Some("i32"), false));
    assert!(getter_needs_wrapper(false, false, Some("&str")));
    assert!(getter_needs_wrapper(false, false, Some("PyResult<i32>")));
    assert!(!getter_needs_wrapper(false, false, Some("i32")));
    assert!(getter_needs_wrapper(true, false, Some("i32")));
    assert!(setter_needs_wrapper(true, false));
    assert!(!setter_needs_wrapper(false, false));
    assert!(setter_returns_result(Some("PyResult<()>")));
    assert!(!setter_returns_result(None));
    assert!(iter_returns_self(Some("PyRef<'_, Self>")));
    assert!(iter_returns_self(Some("&Self")));
    assert!(!iter_returns_self(Some("Iter")));
}

#[test]
fn getter_plans() {
    let p = getter_plan(false, false, Some("&str"));
    assert!(p.arg == GetterArg::Nothing && p.conversion == GetterConversion::StrToString);
    let p = getter_plan(true, false, Some("PyResult<i32>"));
    assert!(p.arg == GetterArg::Python && p.conversion == GetterConversion::Pyo3Result);
    let p = getter_plan(false, true, Some("rustpython_vm::PyResult<i32>"));
    assert!(p.arg == GetterArg::Vm && p.conversion == GetterConversion::RustPythonResult);
    let p = getter_plan(false, false, Some("Py<PyAny>"));
    assert!(p.conversion == GetterConversion::IntoObject);
    let p = getter_plan(false, false, Some("u8"));
    assert!(p.conversion == GetterConversion::ToPyObject);
}
