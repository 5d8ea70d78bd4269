use pyo3_rustpython::methods::{
    constructor_plan, from_py_with_is_len, has_pyo3_params, has_vm_param, is_none_default,
    is_pyo3_marker_attr, is_rustpython_slot_method, method_role, receiver_plan, typed_receiver,
    wrapper_param, new_args_plan, FirstParam, MethodRole, NewArgBinding, OptionalBound, SlotCall,
    WrapperParam,
};

fn strings(v: &[&str]) -> Vec<String> {
    v.iter().map(|s| s.to_string()).collect()
}

#[test]
fn slot_method_names() {
    assert!(is_rustpython_slot_method("__repr__"));
    assert!(is_rustpython_slot_method("__concat__"));
    assert!(is_rustpython_slot_method("__iter__"));
    assert!(!is_rustpython_slot_method("__init__"));
    assert!(!is_rustpython_slot_method("repr"));
}

#[test]
fn marker_attributes() {
    for a in ["new", "getter", "setter", "staticmethod", "classmethod", "classattr", "pyo3"] {
        assert!(is_pyo3_marker_attr(a));
    }
    assert!(!is_pyo3_marker_attr("doc"));
}

#[test]
fn method_roles() {
    assert!(method_role(&strings(&["new"]), "__repr__") == MethodRole::Constructor);
    assert!(method_role(&strings(&["getter"]), "__repr__") == MethodRole::Getter);
    assert!(method_role(&strings(&["doc", "setter"]), "x") == MethodRole::Setter);
    assert!(method_role(&strings(&["classattr", "new"]), "x") == MethodRole::Constructor);
    assert!(method_role(&strings(&["staticmethod"]), "x") == MethodRole::StaticMethod);
    assert!(method_role(&strings(&["classmethod"]), "x") == MethodRole::ClassMethod);
    assert!(method_role(&strings(&[]), "__iter__") == MethodRole::IterSlot);
    assert!(method_role(&strings(&[]), "__next__") == MethodRole::NextSlot);
    assert!(method_role(&strings(&[]), "__len__") == MethodRole::Slot);
    assert!(method_role(&strings(&[]), "area") == MethodRole::Method);
}

#[test]
fn pyo3_parameters() {
    let p = vec![("py : Python < '_ >".to_string(), "Python < '_ >".to_string())];
    assert!(has_pyo3_params(&p));
    let p = vec![("other : & Self".to_string(), "& Self".to_string())];
    assert!(has_pyo3_params(&p));
    let p = vec![("x : i32".to_string(), "i32".to_string())];
    assert!(!has_pyo3_params(&p));
    assert!(has_vm_param(&strings(&["& VirtualMachine"])));
    assert!(!has_vm_param(&strings(&["i32"])));
}

#[test]
fn from_py_with_len() {
    assert!(from_py_with_is_len("< Bound < '_ , _ > as PyAnyMethods > :: len"));
    assert!(!from_py_with_is_len("my_converter"));
}

#[test]
fn none_defaults() {
    assert!(is_none_default(Some("None")));
    assert!(!is_none_default(Some("Some")));
    assert!(!is_none_default(None));
}

#[test]
fn wrapper_parameters() {
    assert!(matches!(wrapper_param("Python<'_>", false), WrapperParam::Python));
    assert!(matches!(wrapper_param("&VirtualMachine", false), WrapperParam::Vm));
    assert!(matches!(wrapper_param("& Self", false), WrapperParam::SelfRef));
    assert!(matches!(wrapper_param("&Bound<'_, PyAny>", false), WrapperParam::Bound(true)));
    assert!(matches!(wrapper_param("Bound<'_, PyAny>", false), WrapperParam::Bound(false)));
    assert!(matches!(wrapper_param("PyRefMut<'_, Self>", true), WrapperParam::PyRefMut));
    assert!(matches!(wrapper_param("PyRef<'_, Self>", true), WrapperParam::PyRef));
    assert!(matches!(wrapper_param("PyRef<'_, Self>", false), WrapperParam::Extract(t) if t == "PyRef<'_,Self>"));
    // `Bound<` is looked for before `Option<&`.
    assert!(matches!(wrapper_param("Option<&Bound<'_, PyAny>>", false), WrapperParam::Bound(true)));
    assert!(matches!(wrapper_param("Option<&Bound>", false), WrapperParam::OptionalRef(OptionalBound::AsRef)));
    assert!(matches!(wrapper_param("Option<&Py<PyAny>>", false), WrapperParam::OptionalRef(OptionalBound::Py)));
    assert!(matches!(wrapper_param("Option<usize>", false), WrapperParam::Optional(_)));
    assert!(matches!(wrapper_param("PathBuf", true), WrapperParam::PathBuf));
    assert!(matches!(wrapper_param("i64", false), WrapperParam::Extract(t) if t == "i64"));
}

#[test]
fn typed_receivers() {
    assert_eq!(typed_receiver(Some("PyRefMut<'_, Self>")), Some(true));
    assert_eq!(typed_receiver(Some("PyRef < '_ , Self >")), Some(false));
    assert_eq!(typed_receiver(Some("i32")), None);
    assert_eq!(typed_receiver(None), None);
}

#[test]
fn receiver_plans() {
    let p = receiver_plan(&FirstParam::Receiver { mutable: true });
    assert!(p.mutable && p.takes_object && p.call == SlotCall::MutReceiver && p.keeps_helper);
    let p = receiver_plan(&FirstParam::Receiver { mutable: false });
    assert!(!p.mutable && !p.takes_object && p.call == SlotCall::OnSelf && p.keeps_helper);
    let p = receiver_plan(&FirstParam::Typed("PyRefMut<'_, Self>".to_string()));
    assert!(p.typed == Some(true) && p.mutable && p.takes_object && p.call == SlotCall::Inline);
    let p = receiver_plan(&FirstParam::Typed("PyRef<'_, Self>".to_string()));
    assert!(p.typed == Some(false) && !p.mutable && p.call == SlotCall::Inline && !p.keeps_helper);
    let p = receiver_plan(&FirstParam::Typed("i32".to_string()));
    assert!(p.typed.is_none() && p.call == SlotCall::Associated);
    let p = receiver_plan(&FirstParam::Absent);
    assert!(p.call == SlotCall::Associated && !p.takes_object);
}

#[test]
fn constructor_plans() {
    let p = constructor_plan(Some("Self"));
    assert!(!p.returns_result && p.base.is_none());
    let p = constructor_plan(Some("PyResult<Self>"));
    assert!(p.returns_result && p.base.is_none());
    let p = constructor_plan(Some("(Self, Base)"));
    assert!(!p.returns_result);
    assert_eq!(p.base, Some("Base".to_string()));
    let p = constructor_plan(Some("PyResult<(Self, crate::Base)>"));
    assert!(p.returns_result);
    assert_eq!(p.base, Some("crate::Base".to_string()));
    let p = constructor_plan(None);
    assert!(!p.returns_result && p.base.is_none());
}

#[test]
fn new_argument_bindings() {
    let types = strings(&["Python<'_>", "i32", "Option<i32>", "String"]);
    let p = new_args_plan(&types, &vec![None, Some(true), Some(false)]);
    assert_eq!(p.bindings, vec![NewArgBinding::Required, NewArgBinding::DefaultNone, NewArgBinding::DefaultValue]);
    assert_eq!(p.required, 1);
    let p = new_args_plan(&strings(&["i32", "i32"]), &vec![Some(false)]);
    assert_eq!(p.bindings, vec![NewArgBinding::DefaultValue, NewArgBinding::Required]);
    assert_eq!(p.required, 1);
    let p = new_args_plan(&strings(&["py: Python"]), &vec![Some(true)]);
    assert!(p.bindings.is_empty());
    assert_eq!(p.required, 0);
}
