use pyo3_rustpython::attrs::{DeriveError, ItemShape};
use pyo3_rustpython::codegen::{
    new_args,
    method_item_code, pymethods_block_code, ImplMethod,
    getter_wrapper_code, iter_wrapper_code, next_wrapper_code, pyclass_enum_code, pymodule_code,
    setter_wrapper_code, annotated_item_code, pymethods_code, slot_wrapper_code, constructor_code, from_py_object_code, function_arg_code, method_arg_code, method_return_code,
    method_wrapper_code, pyclass_code, pyfunction_code, static_method_code, FieldAccessor,
    MethodSig, NewArg, ParamSig, Receiver,
};
use pyo3_rustpython::methods::MethodRole;

fn req(n: &str) -> String {
    format!(
        "__args.take_positional_keyword(\"{n}\").ok_or_else(|| __vm.new_type_error(format!(\"missing required argument: {{}}\", \"{n}\")))?"
    )
}

fn pos_req(n: &str) -> String {
    format!(
        "__args.take_positional().ok_or_else(|| __vm.new_type_error(format!(\"missing required argument: {{}}\", \"{n}\")))?"
    )
}

fn sig(name: &str, receiver: Receiver, params: Vec<ParamSig>, inputs: &str, output: &str) -> MethodSig {
    MethodSig {
        name: name.to_string(),
        attrs: vec![],
        receiver,
        params,
        generics: String::new(),
        inputs: inputs.to_string(),
        output: output.to_string(),
    }
}

fn bound(e: &str) -> String {
    format!("::pyo3::Bound::from_object(::pyo3::Python::from_vm(__vm), {e})")
}

fn param(name: &str, ty: &str) -> ParamSig {
    ParamSig { name: name.to_string(), ty: ty.to_string(), from_py_with: None }
}

#[test]
fn integer_arguments_keep_their_type() {
    let (e, c) = function_arg_code("x", "i32", None);
    assert_eq!(e, format!("let x: i32 = {}.try_into_value(__vm)?;\n", req("x")));
    assert_eq!(c, "x");
    let (e, c) = function_arg_code("n", "usize", None);
    assert_eq!(e, format!("let n: usize = {}.try_into_value(__vm)?;\n", req("n")));
    assert_eq!(c, "n");
}

#[test]
fn python_token_is_made_from_the_vm() {
    let (e, c) = function_arg_code("py", "Python < '_ >", None);
    assert_eq!(e, "");
    assert_eq!(c, "::pyo3::Python::from_vm(__vm)");
}

#[test]
fn float_arguments_are_read_as_f64() {
    let (e, c) = function_arg_code("f", "f32", None);
    assert_eq!(e, format!("let f: f64 = {}.try_into_value(__vm)?;\n", req("f")));
    assert_eq!(c, "f as f32");
}

#[test]
fn borrowed_arguments_are_extracted() {
    let (e, c) = function_arg_code("s", "& str", None);
    assert_eq!(
        e,
        format!(
            "let s = <&str as ::pyo3::FromPyObject<'_, '_>>::extract_bound(&{}).map_err(::pyo3::err::into_vm_err)?;\n",
            bound(&req("s"))
        )
    );
    assert_eq!(c, "s");
    let (e, c) = function_arg_code("o", "&Bound<'_, PyAny>", None);
    assert_eq!(e, format!("let o = {};\nlet __bound_o = {};\n", req("o"), bound("o")));
    assert_eq!(c, "&__bound_o");
}

#[test]
fn optional_arguments_skip_none() {
    let (e, c) = function_arg_code("n", "Option<u32>", None);
    assert_eq!(
        e,
        "let n = __args.take_positional_keyword(\"n\").filter(|__o| !__vm.is_none(__o));\n\
         let n: Option<u32> = match n { Some(__o) => Some(__o.try_into_value(__vm)?), None => None };\n"
    );
    assert_eq!(c, "n");
}

#[test]
fn converters_are_applied() {
    let (e, c) = function_arg_code("n", "usize", Some("len_of"));
    assert_eq!(
        e,
        format!("let n = len_of(&{}).map_err(::pyo3::err::into_vm_err)?;\n", bound(&req("n")))
    );
    assert_eq!(c, "n");
}

#[test]
fn method_arguments_take_str_directly() {
    let (e, c) = method_arg_code("s", "&str");
    assert_eq!(
        e,
        format!("let s: ::rustpython_vm::builtins::PyStrRef = {}.try_into_value(__vm)?;\n", pos_req("s"))
    );
    assert_eq!(c, "s.as_str()");
}

#[test]
fn method_arguments_are_positional_and_cast() {
    let (e, c) = method_arg_code("n", "u8");
    assert_eq!(e, format!("let n: u64 = {}.try_into_value(__vm)?;\n", pos_req("n")));
    assert_eq!(c, "n as u8");
    let (e, c) = method_arg_code("s", "Option<String>");
    assert!(e.starts_with("let s = __args.take_positional().filter(|__o| !__vm.is_none(__o));\n"));
    assert_eq!(c, "s");
    let (e, _) = method_arg_code("x", "Foo");
    assert_eq!(
        e,
        format!(
            "let x = <Foo as ::pyo3::FromPyObject>::extract_bound(&{}).map_err(::pyo3::err::into_vm_err)?;\n",
            bound(&pos_req("x"))
        )
    );
}

#[test]
fn converters_come_before_the_python_token() {
    let (e, c) = function_arg_code("p", "Python<'_>", Some("conv"));
    assert_eq!(
        e,
        format!("let p = conv(&{}).map_err(::pyo3::err::into_vm_err)?;\n", bound(&req("p")))
    );
    assert_eq!(c, "p");
    let params = vec![ParamSig {
        name: "py".to_string(),
        ty: "Python<'_>".to_string(),
        from_py_with: Some("conv".to_string()),
    }];
    let code = pyfunction_code("f", "", &params, None);
    assert!(code.contains("let __result = f(::pyo3::Python::from_vm(__vm));\n"));
}

#[test]
fn pyfunction_wrapper_text() {
    let params = vec![param("a", "i64"), param("b", "i64")];
    let code = pyfunction_code("add", "name = \"plus\"", &params, Some("i64"));
    let expected = format!(
        "#[doc(hidden)]\n#[allow(non_snake_case, dead_code)]\npub fn __pyo3_fn_add<'__py>(__py: ::pyo3::Python<'__py>) -> ::pyo3::Bound<'__py, ::pyo3::types::PyAny> {{\n\
let __vm = __py.vm();\nlet __heap_def = __vm.ctx.new_method_def(\"plus\", {{\n\
fn __pyo3_impl(__args: ::rustpython_vm::function::FuncArgs, __vm: &::rustpython_vm::VirtualMachine) -> ::rustpython_vm::PyResult<::rustpython_vm::PyObjectRef> {{\n\
let mut __args = __args;\n\
let a: i64 = {}.try_into_value(__vm)?;\n\
let b: i64 = {}.try_into_value(__vm)?;\n\
let __result = add(a, b);\n\
::pyo3::IntoPyObject::into_pyobject(__result, ::pyo3::Python::from_vm(__vm)).map(|__b| {{ let __obj: ::rustpython_vm::PyObjectRef = __b.into_any().into(); __obj }}).map_err(::pyo3::err::into_vm_err)\n\
}}\n__pyo3_impl\n}}, ::rustpython_vm::function::PyMethodFlags::empty(), None);\n\
let __callable = __heap_def.build_function(__vm);\n::pyo3::Bound::from_object(__py, __callable.into())\n}}\n\
#[doc(hidden)]\n#[no_mangle]\npub fn __pyo3_wrap_symbol_add(__py: ::pyo3::Python<'_>) -> ::rustpython_vm::PyObjectRef {{\n\
let __bound = __pyo3_fn_add(__py);\nlet __obj: ::rustpython_vm::PyObjectRef = __bound.into_any().into();\n__obj\n}}\n",
        req("a"),
        req("b")
    );
    assert_eq!(code, expected);
}

#[test]
fn pyfunction_without_result_returns_none() {
    let code = pyfunction_code("touch", "", &vec![], None);
    assert!(code.contains("new_method_def(\"touch\""));
    assert!(code.contains("let __result = touch();\nOk(__vm.ctx.none())\n"));
    let code = pyfunction_code("check", "", &vec![], Some("PyResult<()>"));
    assert!(code.contains(
        "let __result = check();\n__result.map(|_| __vm.ctx.none()).map_err(::pyo3::err::into_vm_err)\n"
    ));
}

#[test]
fn derived_extraction_of_tuple_structs() {
    let code = from_py_object_code("Pair", ItemShape::TupleStruct(2), &vec!["i32".to_string(), "String".to_string()]);
    assert_eq!(
        code,
        Ok("impl<'py> ::pyo3::FromPyObject<'py> for Pair {\n\
fn extract_bound(ob: &::pyo3::Bound<'py, ::pyo3::types::PyAny>) -> ::pyo3::PyResult<Self> {\n\
let (_f0, _f1): (i32, String) = ob.extract()?;\nOk(Pair(_f0, _f1))\n}\n}\n"
            .to_string())
    );
}

#[test]
fn derived_extraction_of_one_field_reads_a_tuple() {
    let code = from_py_object_code("One", ItemShape::TupleStruct(1), &vec!["i32".to_string()]).unwrap();
    assert!(code.contains("let (_f0,): (i32,) = ob.extract()?;\nOk(One(_f0))"));
}

#[test]
fn derived_extraction_numbers_many_fields() {
    let types: Vec<String> = (0..12).map(|_| "u8".to_string()).collect();
    let code = from_py_object_code("Many", ItemShape::TupleStruct(12), &types).unwrap();
    assert!(code.contains("_f9, _f10, _f11): (u8, u8"));
}

#[test]
fn derived_extraction_of_named_and_unit_structs() {
    let code = from_py_object_code("Named", ItemShape::NamedStruct, &vec![]).unwrap();
    assert!(code.contains("unimplemented!(\"FromPyObject for a struct with named fields\")"));
    let code = from_py_object_code("Unit", ItemShape::UnitStruct, &vec![]).unwrap();
    assert!(code.contains("Ok(Unit)\n"));
    assert_eq!(from_py_object_code("E", ItemShape::Enum, &vec![]), Err(DeriveError::NotAStruct));
}

#[test]
fn return_code_of_methods() {
    assert_eq!(method_return_code(Some("()")), "Ok(_vm.ctx.none())");
    assert_eq!(
        method_return_code(Some("i32")),
        "Ok(::rustpython_vm::convert::ToPyObject::to_pyobject(__result, _vm))"
    );
    assert_eq!(
        method_return_code(Some("PyResult<()>")),
        "__result.map(|_| _vm.ctx.none()).map_err(|e: ::pyo3::PyErr| ::pyo3::err::into_vm_err(e))"
    );
    assert_eq!(
        method_return_code(Some("Vec<u8>")),
        "::pyo3::IntoPyObject::into_pyobject(__result, __py).map(|b| b.into_any().unbind().into_object()).map_err(|e| ::pyo3::err::into_vm_err(e.into()))"
    );
}

#[test]
fn result_of_a_named_type_is_converted() {
    assert_eq!(
        method_return_code(Some("PyResult<MyType>")),
        "__result.map(|v| ::rustpython_vm::convert::ToPyObject::to_pyobject(v, _vm)).map_err(|e: ::pyo3::PyErr| ::pyo3::err::into_vm_err(e))"
    );
    assert_eq!(
        method_return_code(Some("PyResult<()>")),
        "__result.map(|_| _vm.ctx.none()).map_err(|e: ::pyo3::PyErr| ::pyo3::err::into_vm_err(e))"
    );
}

#[test]
fn block_with_a_base_class_constructor() {
    let methods = vec![method("new", &["new"], Receiver::Absent, &[], Some("(Self, Base)"))];
    let rets = vec!["R0".to_string()];
    let code = pymethods_block_code("T", "T", &methods, &rets, &vec![], &vec![], None);
    assert!(code.contains("impl ::rustpython_vm::types::Constructor for T {\n"));
    assert!(code.contains("let (_, base_payload): (Self, <Self as ::pyo3::Pyo3BasePayload>::BasePayload) = "));
}

#[test]
fn static_and_class_method_wrappers() {
    let params = vec![param("x", "u8")];
    let code = static_method_code("make", "", false, &params, "Ok(_vm.ctx.none())");
    assert!(code.starts_with("#[pystaticmethod(name = \"make\")]\nfn _pyo3_static_make(__args: ::rustpython_vm::function::FuncArgs, vm: &::rustpython_vm::VirtualMachine) -> "));
    assert!(code.contains(&format!("let x: u64 = {}.try_into_value(__vm)?;\nlet __result = Self::make(x as u8);\nOk(_vm.ctx.none())\n}}\n", pos_req("x"))));
    let code = static_method_code("build", "<'a>", true, &vec![], "__result");
    assert!(code.starts_with("#[pyclassmethod(name = \"build\")]\nfn _pyo3_classmethod_build<'a>(__cls: "));
    assert!(code.ends_with("let __result = Self::build();\n__result\n}\n"));
}

#[test]
fn plain_method_wrapper() {
    let mut m = sig(
        "push",
        Receiver::Mutable,
        vec![param("item", "&Bound<'_, PyAny>"), param("py", "Python<'_>")],
        "&mut self, item: &Bound<'_, PyAny>, py: Python<'_>",
        "",
    );
    m.attrs = vec!["#[doc = \"Adds.\"]".to_string()];
    let code = method_wrapper_code(&m, "Stack", "Ok(_vm.ctx.none())");
    assert_eq!(
        code,
        "#[doc = \"Adds.\"]\n#[pymethod(name = \"push\")]\nfn __pyo3_wrap_push(__slf: &::rustpython_vm::Py<Self>, __raw_item: ::rustpython_vm::PyObjectRef, vm: &::rustpython_vm::VirtualMachine) -> ::rustpython_vm::PyResult<::rustpython_vm::PyObjectRef> {\n\
let _vm = vm;\nlet __py = ::pyo3::Python::from_vm(_vm);\nlet py = __py;\nlet vm = _vm;\n\
let item = ::pyo3::Bound::from_object(__py, __raw_item);\n\
let __result = { let mut self_ = ::pyo3::PyRefMut::from_vm_ref(__py, __slf.to_owned()); self_.push(&item, __py) };\n\
Ok(_vm.ctx.none())\n}\n"
    );
}

#[test]
fn constructor_without_signature() {
    let code = constructor_code("Counter", "new", &vec![param("start", "i64")], Some("PyResult<Self>"), false, None);
    assert!(code.starts_with("impl ::rustpython_vm::types::Constructor for Counter {\n"));
    assert!(code.contains(&format!(
        "({{\nlet mut __args = _args;\nlet start: i64 = {}.try_into_value(__vm)?;\nSelf::_pyo3_inner_new(start as i64)\n}}).map_err(|e: ::pyo3::PyErr| ::pyo3::err::into_vm_err(e))\n}}\n}}\n",
        pos_req("start")
    )));
    assert!(!code.contains("slot_new"));
}

#[test]
fn constructor_with_signature_and_base() {
    let sig = vec![
        NewArg { name: "a".to_string(), default: None },
        NewArg { name: "b".to_string(), default: Some("None".to_string()) },
        NewArg { name: "c".to_string(), default: Some("3".to_string()) },
    ];
    let params = vec![param("a", "i64"), param("b", "Option<i64>"), param("c", "i64")];
    let code = constructor_code("Child", "new", &params, Some("(Self, Base)"), true, Some(&sig));
    assert!(code.contains("struct _Pyo3NewArgs_new {\na: ::rustpython_vm::PyObjectRef,\nb: ::rustpython_vm::PyObjectRef,\nc: ::rustpython_vm::PyObjectRef,\n}\n"));
    assert!(code.contains("fn arity() -> ::std::ops::RangeInclusive<usize> {\n1..=3\n}"));
    assert!(code.contains("let a = args.take_positional_keyword(\"a\").ok_or(::rustpython_vm::function::ArgumentError::TooFewArgs)?;\n"));
    assert!(code.contains("let b = args.take_positional_keyword(\"b\").unwrap_or_else(|| vm.ctx.none());\n"));
    assert!(code.contains("let c = args.take_positional_keyword(\"c\").unwrap_or_else(|| ::rustpython_vm::convert::ToPyObject::to_pyobject(3, vm));\n"));
    assert!(code.contains("Ok(Self { a, b, c })"));
    assert!(code.contains("FuncArgs::from(vec![__new_args.a, __new_args.b, __new_args.c]);\n"));
    assert!(code.contains(").0)\n}\nfn slot_new("));
}

#[test]
fn pyclass_items() {
    let acc = vec![FieldAccessor { name: "x".to_string(), ty: "i64".to_string(), get: true, set: true }];
    let (attr, items) = pyclass_code("Point", "name = \"Point2\", subclass, extends = Base", false, &acc);
    assert_eq!(attr, "#[::rustpython_vm::pyclass(module = false, name = \"Point2\")]\n");
    assert!(items.starts_with("impl ::core::fmt::Debug for Point {\n"));
    assert!(items.contains("f.debug_struct(\"Point2\")"));
    assert!(items.contains("let base_type = <Base as ::pyo3::PyTypeObjectExt>::type_object_raw(ctx);"));
    assert!(items.contains("type BasePayload = Base;\n"));
    assert!(items.contains("const NAME: &'static str = \"Point2\";"));
    assert!(items.contains(".union(::rustpython_vm::types::PyTypeFlags::BASETYPE);"));
    assert!(items.contains("PyGetSet::new(\"x\".to_string(), class).with_get("));
    assert!(items.contains(".with_set(|obj: &Point, value: i64| {"));
    assert!(items.ends_with("::pyo3::inventory::collect!(__Pyo3InventoryForPoint);\n"));
    let (_, items) = pyclass_code("Plain", "", true, &vec![]);
    assert!(!items.contains("::core::fmt::Debug"));
    assert!(items.contains("type BasePayload = ::rustpython_vm::builtins::PyBaseObject;\n"));
    assert!(items.contains("fn __pyo3_register_accessors(_ctx: &::rustpython_vm::Context"));
    assert!(!items.contains("BASETYPE"));
}

#[test]
fn items_without_wrappers_are_annotated() {
    assert_eq!(annotated_item_code(MethodRole::Method, "fn f(&self) {}"), "#[pymethod]\nfn f(&self) {}");
    assert_eq!(annotated_item_code(MethodRole::Setter, "fn set_x(&self) {}"), "#[pygetset(setter)]\nfn set_x(&self) {}");
    assert_eq!(annotated_item_code(MethodRole::ClassAttr, "fn c() -> i32 { 1 }"), "fn c() -> i32 { 1 }");
}

#[test]
fn pymethods_block() {
    let items = vec!["#[pymethod]\nfn a(&self) {}".to_string()];
    let code = pymethods_code("crate::Foo", "Foo", &items, None, &vec![], &vec![]);
    assert_eq!(
        code,
        "#[::rustpython_vm::pyclass(payload = \"__Pyo3MethodHelper\")]\nimpl crate::Foo {\n#[pymethod]\nfn a(&self) {}\n}\n\
::pyo3::inventory::submit! {\n__Pyo3InventoryForFoo::new(::pyo3::Pyo3ClassItems {\nmethods: crate::Foo::__OWN_METHOD_DEFS,\n\
extend_class: |ctx, class| {\ncrate::Foo::__extend_py_class(unsafe { ::std::mem::transmute::<&::rustpython_vm::Context, &'static ::rustpython_vm::Context>(ctx) }, class)\n},\n\
extend_slots: crate::Foo::__extend_slots,\n})\n}\n"
    );
    let consts = vec!["const X: i32 = 1;".to_string()];
    let code = pymethods_code("Foo", "Foo", &vec![], Some("CTOR\n"), &consts, &vec!["OUTER".to_string()]);
    assert!(code.starts_with("#[::rustpython_vm::pyclass(payload = \"__Pyo3MethodHelper\", with(::rustpython_vm::types::Constructor))]\n"));
    assert!(code.ends_with("})\n}\nCTOR\nimpl Foo {\nconst X: i32 = 1;\n}\nOUTER\n"));
}

#[test]
fn slot_wrapper_with_receiver() {
    let m = sig("__add__", Receiver::Shared, vec![param("other", "i64")], "&self, other: i64", "-> i64");
    let code = slot_wrapper_code(&m, "Num", "", "()", "RET");
    assert_eq!(
        code,
        "#[pymethod(name = \"_pyo3_slot___add__\")]\nfn __pyo3_wrap___add__(&self, __raw_other: ::rustpython_vm::PyObjectRef, vm: &::rustpython_vm::VirtualMachine) -> ::rustpython_vm::PyResult<::rustpython_vm::PyObjectRef> {\n\
let _vm = vm;\nlet __py = ::pyo3::Python::from_vm(_vm);\nlet py = __py;\nlet vm = _vm;\n\
let __result = {\nlet other: i64 = match <i64 as ::pyo3::FromPyObject>::extract_bound(&::pyo3::Bound::from_object(__py, __raw_other.clone())) { Ok(v) => v, Err(e) => return Err(::pyo3::err::into_vm_err(e)) };\n\
let __result = self.__add__(other);\n__result\n};\nRET\n}\n"
    );
}

#[test]
fn slot_wrapper_with_typed_receiver() {
    let m = sig(
        "__len__",
        Receiver::Absent,
        vec![param("slf", "PyRef<'_, Self>"), param("py", "Python<'_>")],
        "slf: PyRef<'_, Self>, py: Python<'_>",
        "-> usize",
    );
    let code = slot_wrapper_code(&m, "Bag", "slf.items.len()", "usize", "RET");
    assert!(code.contains("fn __pyo3_wrap___len__(__slf: &::rustpython_vm::Py<Self>, vm: "));
    assert!(code.contains("let __result = {\nlet slf = ::pyo3::PyRef::from_vm_ref(__py, __slf.to_owned());\nlet py = __py;\nlet __result: usize = { slf.items.len() };\n__result\n};\nRET\n}\n"));
}

#[test]
fn getter_wrappers() {
    let code = getter_wrapper_code("value", "", true, false, Some("PyResult<i32>"));
    assert!(code.starts_with("#[pygetset(name = \"value\")]\nfn _pyo3_getter_value(&self, vm: "));
    assert!(code.ends_with("Ok(match self.value(__py) { Ok(val) => ::rustpython_vm::convert::ToPyObject::to_pyobject(val, _vm), Err(e) => return Err(::pyo3::err::into_vm_err(e)) })\n}\n"));
    let code = getter_wrapper_code("label", "", false, false, Some("&str"));
    assert!(code.ends_with("Ok(::rustpython_vm::convert::ToPyObject::to_pyobject(self.label().to_string(), _vm))\n}\n"));
}

#[test]
fn setter_wrappers_raise_errors() {
    let code = setter_wrapper_code("value", "", Some("PyResult<()>"));
    assert!(code.starts_with("#[pygetset(setter, name = \"value\")]\nfn _pyo3_setter_value(&self, value: ::rustpython_vm::function::PySetterValue<::rustpython_vm::PyObjectRef>, vm: &::rustpython_vm::VirtualMachine) -> ::rustpython_vm::PyResult<()> {\n"));
    assert!(code.ends_with("Self::value(self, value, _vm).map_err(|e: ::pyo3::PyErr| ::pyo3::err::into_vm_err(e))?;\nOk(())\n}\n"));
    assert!(code.contains("::rustpython_vm::function::PySetterValue::Delete => {\nreturn Ok(());\n}\n"));
}

#[test]
fn plain_setter_wrappers_return_nothing() {
    let code = setter_wrapper_code("plain", "<T>", None);
    assert_eq!(
        code,
        "#[pygetset(setter, name = \"plain\")]\nfn _pyo3_setter_plain<T>(&self, value: ::rustpython_vm::function::PySetterValue<::rustpython_vm::PyObjectRef>, vm: &::rustpython_vm::VirtualMachine) {\nlet _vm = vm;\nlet __py = ::pyo3::Python::from_vm(_vm);\nlet py = __py;\nlet vm = _vm;\nlet value = match value {\n::rustpython_vm::function::PySetterValue::Assign(v) => v,\n::rustpython_vm::function::PySetterValue::Delete => {\nreturn;\n}\n};\nSelf::plain(self, value, _vm);\n}\n"
    );
}

#[test]
fn iterator_wrappers() {
    let code = iter_wrapper_code("__iter__", "", "It", true, Some("PyRef<'_, Self>"));
    assert!(code.contains("fn __pyo3_wrap___iter__(slf: &::rustpython_vm::Py<It>, vm: "));
    assert!(code.ends_with("Ok(slf.to_owned().into())\n}\n"));
    let code = iter_wrapper_code("__iter__", "", "It", false, Some("Py<It>"));
    assert!(code.ends_with("let __result = Self::__iter__(slf);\nOk(::rustpython_vm::convert::IntoObject::into_object(__result))\n}\n"));
    let code = next_wrapper_code("__next__", "", "It", true);
    assert!(code.ends_with("let mut slf = ::pyo3::PyRefMut::from_vm_ref(__py, slf);\nlet __result = slf.__next__();\n::pyo3::__next_option_to_result(__result, __py)\n}\n"));
}

#[test]
fn module_items() {
    let code = pymodule_code("mymod", "name = \"fancy\"", None, 2);
    assert!(code.starts_with("#[doc(hidden)]\nfn __pyo3_mymod_exec(__vm: "));
    assert!(code.contains("mymod(__py, &__bound).map_err(|e| ::pyo3::err::into_vm_err(e))\n}\npub fn mymod_module_def(__ctx: "));
    assert!(code.contains("static __PYO3_MYMOD_DEF: ::std::sync::OnceLock<::pyo3::SyncModuleDefPtr>"));
    assert!(code.contains("name: __ctx.intern_str(\"fancy\"),"));
    assert!(code.contains("__def.slots.exec = Some(__pyo3_mymod_exec);"));
    assert!(pymodule_code("m", "", None, 1).contains("m(&__bound).map_err"));
}

#[test]
fn enum_class_items() {
    let (attr, items) = pyclass_enum_code("Colour", "name = \"Color\"", true);
    assert_eq!(attr, "#[::rustpython_vm::pyclass(module = false, name = \"Color\")]\n");
    assert!(items.starts_with("impl ::rustpython_vm::PyPayload for Colour {\n"));
    assert!(items.contains("const NAME: &'static str = \"Color\";"));
    assert!(items.contains("impl ::pyo3::Pyo3Accessors for Colour {\nfn __pyo3_register_accessors(_ctx: "));
    assert!(!items.contains("FromPyObject"));
    assert!(items.ends_with("::pyo3::inventory::collect!(__Pyo3InventoryForColour);\n"));
}

fn method(name: &str, attrs: &[&str], receiver: Receiver, params: &[(&str, &str)], ret: Option<&str>) -> ImplMethod {
    ImplMethod {
        sig: sig(
            name,
            receiver,
            params.iter().map(|(n, t)| param(n, t)).collect(),
            &params.iter().map(|(n, t)| format!("{n}: {t}")).collect::<Vec<_>>().join(", "),
            &ret.map(|r| format!("-> {r}")).unwrap_or_default(),
        ),
        attr_names: attrs.iter().map(|a| a.to_string()).collect(),
        item: format!("fn {name}() {{}}"),
        rendered_params: params.iter().map(|(n, t)| (format!("{n} : {t}"), t.to_string())).collect(),
        ret: ret.map(|r| r.to_string()),
        body: "{ work() }".to_string(),
        ret_ty: ret.unwrap_or("()").to_string(),
    }
}

#[test]
fn method_items_by_role() {
    let plain = method("size", &[], Receiver::Shared, &[], Some("usize"));
    let (text, outer) = method_item_code("T", &plain, "RET");
    assert_eq!(text, "#[pymethod]\nfn size() {}");
    assert!(outer.is_none());
    let mutating = method("push", &[], Receiver::Mutable, &[("x", "i64")], None);
    let (text, _) = method_item_code("T", &mutating, "RET");
    assert!(text.starts_with("#[pymethod(name = \"push\")]\nfn __pyo3_wrap_push(__slf: "));
    assert!(text.ends_with(
        "RET\n}\n#[allow(dead_code)]\nfn push(x: i64)  { work() }\n#[allow(dead_code)]\nfn _pyo3_push(x: i64)  {\nself.push(x)\n}\n"
    ));
    let getter = method("name", &["getter"], Receiver::Shared, &[], Some("&str"));
    let (text, _) = method_item_code("T", &getter, "RET");
    assert!(text.starts_with("#[pygetset(name = \"name\")]\nfn _pyo3_getter_name(&self"));
    let getter = method("count", &["getter"], Receiver::Shared, &[], Some("i64"));
    assert_eq!(method_item_code("T", &getter, "RET").0, "#[pygetset]\nfn count() {}");
    let slot = method("__repr__", &[], Receiver::Shared, &[], Some("String"));
    let (text, outer) = method_item_code("T", &slot, "RET");
    assert!(text.starts_with("#[pymethod(name = \"_pyo3_slot___repr__\")]"));
    assert_eq!(outer, Some("impl T {\n#[allow(dead_code)]\nfn __repr__() {}\n}\n".to_string()));
    let ctor = method("new", &["new"], Receiver::Absent, &[], Some("Self"));
    assert_eq!(method_item_code("T", &ctor, "RET").0, "fn new() {}");
}

#[test]
fn whole_pymethods_block() {
    let methods = vec![
        method("new", &["new"], Receiver::Absent, &[("v", "i64")], Some("Self")),
        method("__len__", &[], Receiver::Shared, &[], Some("usize")),
    ];
    let rets = vec!["R0".to_string(), "R1".to_string()];
    let code = pymethods_block_code("T", "T", &methods, &rets, &vec!["type Item = i64;".to_string()], &vec![], None);
    assert!(code.starts_with("#[::rustpython_vm::pyclass(payload = \"__Pyo3MethodHelper\", with(::rustpython_vm::types::Constructor))]\nimpl T {\nfn new() {}\n#[pymethod(name = \"_pyo3_slot___len__\")]"));
    assert!(code.contains("\ntype Item = i64;\n}\n::pyo3::inventory::submit!"));
    assert!(code.contains("impl ::rustpython_vm::types::Constructor for T {\n"));
    assert!(code.contains("Self::_pyo3_inner_new(v as i64)"));
    assert!(code.ends_with("impl T {\n#[allow(dead_code)]\nfn __len__() {}\n}\n\n"));
}

#[test]
fn generics_reach_every_generated_fn() {
    let mut m = sig("get", Receiver::Shared, vec![param("k", "&'a str")], "&self, k: &'a str", "-> i64");
    m.generics = "<'a>".to_string();
    let code = method_wrapper_code(&m, "T", "RET");
    assert!(code.contains("fn __pyo3_wrap_get<'a>(&self, "));
    let code = getter_wrapper_code("v", "<T>", false, false, Some("i64"));
    assert!(code.contains("fn _pyo3_getter_v<T>(&self, vm: "));
    let code = next_wrapper_code("__next__", "<'a>", "It", true);
    assert!(code.contains("fn __pyo3_wrap___next__<'a>(slf: "));
}

#[test]
fn new_arguments_pair_with_defaults() {
    let params = vec![param("py", "Python<'_>"), param("a", "i64"), param("b", "i64"), param("c", "i64")];
    let args = new_args(&params, &vec![None, Some("2".to_string())]);
    let got: Vec<(String, Option<String>)> = args.iter().map(|a| (a.name.clone(), a.default.clone())).collect();
    assert_eq!(
        got,
        vec![
            ("a".to_string(), None),
            ("b".to_string(), Some("2".to_string())),
            ("c".to_string(), None),
        ]
    );
}
