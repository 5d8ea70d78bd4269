//! How the attribute macros turn what a Rust function returns into a Python object, and
//! when a method needs a generated wrapper.
use vstd::prelude::*;
use crate::attrs::opt_view;
use crate::signature::{compact, compact_type, is_scalar_name};
use crate::text::{
    contains, contains_exec, eq_exec, find_char, find_char_exec, rfind_char, rfind_char_exec,
    slice_vec, split_char, split_char_exec, starts_with, starts_with_exec, string_from_chars,
    trim, trim_exec, views,
};
use crate::tokens::{has_ascii_letter, opens_with_paren, plain_ident, render_answer_ok, render_tokens, type_like};

verus! {

/// The compact text of an optional return type; the empty text where there is none.
pub open spec fn ret_text(ret: Option<Seq<char>>) -> Seq<char> {
    match ret {
        Some(ty) => compact(ty),
        None => Seq::empty(),
    }
}

/// Renders and compacts an optional return type, as `return_type_string` does.
pub fn return_type_text(ret: Option<&str>) -> (r: Vec<char>)
    ensures
        r@ == ret_text(match ret {
            Some(t) => Some(t@),
            None => None,
        }),
{
    match ret {
        Some(t) => compact_type(t),
        None => Vec::new(),
    }
}

pub open spec fn opt_str(ret: Option<&str>) -> Option<Seq<char>> {
    match ret {
        Some(t) => Some(t@),
        None => None,
    }
}

// ─── #[pyfunction] ───────────────────────────────────────────────────────────

/// What the wrapper of a `#[pyfunction]` does with the function's result.
#[derive(PartialEq, Eq, Structural, Clone, Copy)]
pub enum FnReturn {
    /// Returns Python `None`.
    NoneValue,
    /// `PyResult<()>`: `None` on success, the error otherwise.
    ResultUnit,
    /// `PyResult<T>`: the converted value on success, the error otherwise.
    ResultValue,
    /// Any other type, converted with `IntoPyObject`.
    Value,
}

pub open spec fn function_return(ret: Option<Seq<char>>) -> FnReturn {
    match ret {
        None => FnReturn::NoneValue,
        Some(ty) => {
            let t = compact(ty);
            if contains(t, "PyResult"@) {
                if t == "PyResult<()>"@ {
                    FnReturn::ResultUnit
                } else {
                    FnReturn::ResultValue
                }
            } else if t == "()"@ {
                FnReturn::NoneValue
            } else {
                FnReturn::Value
            }
        },
    }
}

/// Plans the result handling of a `#[pyfunction]` from its rendered return type
/// (`None` where the function declares none).
pub fn function_return_plan(ret: Option<&str>) -> (r: FnReturn)
    ensures
        r == function_return(opt_str(ret)),
{
    match ret {
        None => FnReturn::NoneValue,
        Some(ty) => {
            let t = compact_type(ty);
            if contains_exec(&t, "PyResult") {
                if eq_exec(&t, "PyResult<()>") {
                    FnReturn::ResultUnit
                } else {
                    FnReturn::ResultValue
                }
            } else if eq_exec(&t, "()") {
                FnReturn::NoneValue
            } else {
                FnReturn::Value
            }
        },
    }
}

// ─── #[pymethods] ────────────────────────────────────────────────────────────

/// How a method's wrapper turns the Rust value into a Python object.
#[derive(PartialEq, Eq, Structural, Clone, Copy)]
pub enum Conversion {
    /// Python `None`.
    NoneValue,
    /// `IntoPyObject::into_pyobject`.
    IntoPyObject,
    /// `rustpython_vm::convert::ToPyObject::to_pyobject`.
    ToPyObject,
    /// `IntoObject::into_object`, for `Py<..>` and `Bound<..>`.
    IntoObject,
    /// `to_string`, then `to_pyobject`, for `&str`.
    StrToString,
    /// The result is passed on as it is.
    Passthrough,
}

/// The conversion for a method that does not return a `PyResult`.
pub open spec fn plain_conversion(ret: Option<Seq<char>>) -> Conversion {
    let s = ret_text(ret);
    if s == "()"@ {
        Conversion::NoneValue
    } else if starts_with(s, "Option<"@) || starts_with(s, "("@) {
        Conversion::IntoPyObject
    } else if is_scalar_name(s) || s == "String"@ {
        Conversion::ToPyObject
    } else if contains(s, "Py<"@) || contains(s, "Bound<"@) {
        Conversion::IntoObject
    } else if starts_with(s, "&str"@) {
        Conversion::StrToString
    } else {
        Conversion::IntoPyObject
    }
}

/// Plans the conversion of a method's plain (non-`PyResult`) return value.
pub fn plain_return_conversion(ret: Option<&str>) -> (r: Conversion)
    ensures
        r == plain_conversion(opt_str(ret)),
{
    let s = return_type_text(ret);
    if eq_exec(&s, "()") {
        Conversion::NoneValue
    } else if starts_with_exec(&s, "Option<") || starts_with_exec(&s, "(") {
        Conversion::IntoPyObject
    } else if crate::signature::is_scalar_text(&s) || eq_exec(&s, "String") {
        Conversion::ToPyObject
    } else if contains_exec(&s, "Py<") || contains_exec(&s, "Bound<") {
        Conversion::IntoObject
    } else if starts_with_exec(&s, "&str") {
        Conversion::StrToString
    } else {
        Conversion::IntoPyObject
    }
}

/// The conversion of the value inside `PyResult<..>`, from that value type as the token
/// renderer writes it (`None` where there is no `PyResult` or it cannot be read).
pub open spec fn result_conversion(rendered: Option<Seq<char>>) -> Conversion {
    match rendered {
        None => Conversion::Passthrough,
        Some(t) => if t == "()"@ {
            Conversion::NoneValue
        } else if starts_with(t, "Option<"@) || starts_with(t, "("@) {
            Conversion::IntoPyObject
        } else if t == "bool"@ {
            Conversion::ToPyObject
        } else if contains(t, "Py<"@) || contains(t, "Bound<"@) {
            Conversion::IntoObject
        } else if starts_with(t, "&str"@) {
            Conversion::StrToString
        } else {
            Conversion::ToPyObject
        },
    }
}

/// Chooses the conversion of the value inside `PyResult<..>` from its rendering.
pub fn result_conversion_of(rendered: Option<&str>) -> (r: Conversion)
    ensures
        r == result_conversion(opt_str(rendered)),
{
    match rendered {
        None => Conversion::Passthrough,
        Some(t) => {
            let t = crate::text::chars_of(t);
            if eq_exec(&t, "()") {
                Conversion::NoneValue
            } else if starts_with_exec(&t, "Option<") || starts_with_exec(&t, "(") {
                Conversion::IntoPyObject
            } else if eq_exec(&t, "bool") {
                Conversion::ToPyObject
            } else if contains_exec(&t, "Py<") || contains_exec(&t, "Bound<") {
                Conversion::IntoObject
            } else if starts_with_exec(&t, "&str") {
                Conversion::StrToString
            } else {
                Conversion::ToPyObject
            }
        },
    }
}

/// The angle brackets of a compact type, the first `<` and the last `>`, come in that
/// order when both are there (slicing between them is then defined).
pub open spec fn angles_ordered(s: Seq<char>) -> bool {
    match (find_char(s, '<'), rfind_char(s, '>')) {
        (Some(a), Some(b)) => a < b,
        _ => true,
    }
}

/// The text between the first `<` and the last `>` of a compact type that mentions
/// `PyResult`.
pub open spec fn pyresult_inner_text(s: Seq<char>) -> Option<Seq<char>> {
    if !contains(s, "PyResult"@) {
        None
    } else {
        match (find_char(s, '<'), rfind_char(s, '>')) {
            (Some(a), Some(b)) => Some(s.subrange(a + 1, b)),
            _ => None,
        }
    }
}

fn pyresult_inner_vec(s: &Vec<char>) -> (r: Option<Vec<char>>)
    requires
        angles_ordered(s@),
    ensures
        crate::attrs::opt_vview(r) == pyresult_inner_text(s@),
{
    if !contains_exec(s, "PyResult") {
        return None;
    }
    let open = find_char_exec(s, '<');
    let close = rfind_char_exec(s, '>');
    match open {
        Some(a) => match close {
            Some(b) => {
                Some(slice_vec(s, a + 1, b))
            },
            None => None,
        },
        None => None,
    }
}

/// How a method that returns a `PyResult` hands its value to Python.
pub struct ResultPlan {
    pub conversion: Conversion,
    /// The result is a `rustpython_vm::PyResult`, whose errors need no conversion.
    pub rustpython_result: bool,
}

/// Plans the result handling of a method that returns a `PyResult`, from its rendered
/// return type (`None` where it declares none). The value type inside `PyResult<..>` is
/// rendered again by the token renderer, and the conversion is the one that
/// `result_conversion_of` chooses for that rendering; without a `PyResult` the value
/// passes through. A value type that is a plain identifier or `()` renders as itself on
/// every compiler, so its conversion is stated exactly.
pub fn result_return_plan(ret: Option<&str>) -> (r: ResultPlan)
    requires
        angles_ordered(ret_text(opt_str(ret))),
    ensures
        pyresult_inner_text(ret_text(opt_str(ret))) is None ==> r.conversion == Conversion::Passthrough,
        exists|rendered: Option<Seq<char>>| r.conversion == result_conversion(rendered),
        match pyresult_inner_text(ret_text(opt_str(ret))) {
            Some(t) => (plain_ident(t) || t == "()"@) ==> r.conversion == result_conversion(Some(t)),
            None => true,
        },
        r.rustpython_result == contains(ret_text(opt_str(ret)), "rustpython_vm::PyResult"@),
        match pyresult_inner_text(ret_text(opt_str(ret))) {
            Some(t) => exists|rendered: Option<Seq<char>>| #![auto]
                render_answer_ok(t, rendered) && r.conversion == result_conversion(rendered),
            None => true,
        },
        match pyresult_inner_text(ret_text(opt_str(ret))) {
            Some(t) => type_like(t) && has_ascii_letter(t) ==> r.conversion != Conversion::NoneValue,
            None => true,
        },
        match pyresult_inner_text(ret_text(opt_str(ret))) {
            Some(t) => type_like(t) && opens_with_paren(t) && has_ascii_letter(t) ==> r.conversion == Conversion::IntoPyObject
                || r.conversion == Conversion::Passthrough,
            None => true,
        },
{
    let s = return_type_text(ret);
    let rendered: Option<String> = match pyresult_inner_vec(&s) {
        Some(inner) => {
            let inner_text = string_from_chars(&inner);
            render_tokens(inner_text.as_str())
        },
        None => None,
    };
    let conversion = match &rendered {
        Some(t) => result_conversion_of(Some(t.as_str())),
        None => result_conversion_of(None),
    };
    proof {
        let rv: Option<Seq<char>> = match rendered {
            Some(t) => Some(t@),
            None => None,
        };
        assert(conversion == result_conversion(rv));
        match pyresult_inner_text(s@) {
            Some(t) => {
                assert(render_answer_ok(t, rv));
                lemma_none_value_only_for_unit(t, rv);
                if type_like(t) && opens_with_paren(t) {
                    lemma_tuple_values_go_through_into_pyobject(t, rv);
                }
            },
            None => {},
        }
    }
    ResultPlan { conversion, rustpython_result: contains_exec(&s, "rustpython_vm::PyResult") }
}

/// A `PyResult` method hands Python `None` on success only where the value type renders
/// as `()`, and a value type written with type characters that names anything (holds a
/// letter), such as `Vec<i64>` or `MyType`, never does: whatever the renderer's spacing,
/// its value is converted, not dropped.
pub proof fn lemma_none_value_only_for_unit(t: Seq<char>, rendered: Option<Seq<char>>)
    requires
        render_answer_ok(t, rendered),
    ensures
        result_conversion(rendered) == Conversion::NoneValue <==> rendered == Some("()"@),
        type_like(t) && has_ascii_letter(t) ==> result_conversion(rendered) != Conversion::NoneValue,
        t == "()"@ ==> result_conversion(rendered) == Conversion::NoneValue,
{
}

/// A `PyResult` method whose value type is a tuple that names a type (holds a letter),
/// such as `(i32, i32)`, converts its value with `IntoPyObject`, whatever the renderer's
/// spacing; `Passthrough` only where the renderer refuses the text.
pub proof fn lemma_tuple_values_go_through_into_pyobject(t: Seq<char>, rendered: Option<Seq<char>>)
    requires
        render_answer_ok(t, rendered),
        type_like(t),
        opens_with_paren(t),
    ensures
        rendered is Some && has_ascii_letter(t) ==> result_conversion(rendered) == Conversion::IntoPyObject,
        rendered is None ==> result_conversion(rendered) == Conversion::Passthrough,
{
    reveal_strlit("(");
    match rendered {
        Some(x) => {
            assert(x.len() > 0 && x[0] == '(');
            assert(x.subrange(0, 1) =~= "("@);
        },
        None => {},
    }
}

/// Whether a method returns pyo3's `PyResult`.
pub open spec fn returns_pyo3_result_spec(ret: Option<Seq<char>>) -> bool {
    ret is Some && (starts_with(ret_text(ret), "PyResult<"@) || contains(
        ret_text(ret),
        "pyo3::PyResult<"@,
    ))
}

pub fn returns_pyo3_result(ret: Option<&str>) -> (r: bool)
    ensures
        r == returns_pyo3_result_spec(opt_str(ret)),
{
    match ret {
        None => false,
        Some(_) => {
            let s = return_type_text(ret);
            starts_with_exec(&s, "PyResult<") || contains_exec(&s, "pyo3::PyResult<")
        },
    }
}

/// Whether a plain method needs a generated wrapper in place of `#[pymethod]`: it takes
/// `&mut self`, returns pyo3's `PyResult`, takes pyo3 types, or returns something that
/// RustPython cannot convert by itself.
pub open spec fn method_needs_wrapper_spec(mut_receiver: bool, ret: Option<Seq<char>>, pyo3_params: bool) -> bool {
    let s = ret_text(ret);
    ||| mut_receiver
    ||| returns_pyo3_result_spec(ret)
    ||| pyo3_params
    ||| contains(s, "Py<"@) || contains(s, "Bound<"@)
    ||| starts_with(s, "Option<"@) || starts_with(s, "Vec<"@) || starts_with(s, "("@)
}

pub fn method_needs_wrapper(mut_receiver: bool, ret: Option<&str>, pyo3_params: bool) -> (r: bool)
    ensures
        r == method_needs_wrapper_spec(mut_receiver, opt_str(ret), pyo3_params),
{
    if mut_receiver || returns_pyo3_result(ret) || pyo3_params {
        return true;
    }
    let s = return_type_text(ret);
    contains_exec(&s, "Py<") || contains_exec(&s, "Bound<") || starts_with_exec(&s, "Option<")
        || starts_with_exec(&s, "Vec<") || starts_with_exec(&s, "(")
}

/// Whether a `#[getter]` needs a generated wrapper in place of `#[pygetset]`.
pub open spec fn getter_needs_wrapper_spec(vm_param: bool, pyo3_params: bool, ret: Option<Seq<char>>) -> bool {
    let s = ret_text(ret);
    ||| vm_param
    ||| pyo3_params
    ||| starts_with(s, "&str"@) || starts_with(s, "&'"@)
    ||| contains(s, "Py<"@) || contains(s, "PyResult"@)
}

pub fn getter_needs_wrapper(vm_param: bool, pyo3_params: bool, ret: Option<&str>) -> (r: bool)
    ensures
        r == getter_needs_wrapper_spec(vm_param, pyo3_params, opt_str(ret)),
{
    if vm_param || pyo3_params {
        return true;
    }
    let s = return_type_text(ret);
    starts_with_exec(&s, "&str") || starts_with_exec(&s, "&'") || contains_exec(&s, "Py<")
        || contains_exec(&s, "PyResult")
}

/// Whether a `#[setter]` needs a generated wrapper.
pub fn setter_needs_wrapper(pyo3_params: bool, vm_param: bool) -> (r: bool)
    ensures
        r == (pyo3_params || vm_param),
{
    pyo3_params || vm_param
}

/// Whether a setter's result is a `PyResult` whose error must be raised.
pub fn setter_returns_result(ret: Option<&str>) -> (r: bool)
    ensures
        r == contains(ret_text(opt_str(ret)), "PyResult"@),
{
    let s = return_type_text(ret);
    contains_exec(&s, "PyResult")
}

/// Whether `__iter__` gives back the object itself (it returns `&Self` or a `PyRef`).
pub fn iter_returns_self(ret: Option<&str>) -> (r: bool)
    ensures
        r == (contains(ret_text(opt_str(ret)), "&Self"@) || contains(
            ret_text(opt_str(ret)),
            "PyRef<"@,
        )),
{
    let s = return_type_text(ret);
    contains_exec(&s, "&Self") || contains_exec(&s, "PyRef<")
}

/// What a getter's wrapper passes to the getter.
#[derive(PartialEq, Eq, Structural, Clone, Copy)]
pub enum GetterArg {
    /// The `Python` token.
    Python,
    /// The virtual machine.
    Vm,
    /// Nothing but `self`.
    Nothing,
}

/// How a getter's wrapper hands the value to Python.
#[derive(PartialEq, Eq, Structural, Clone, Copy)]
pub enum GetterConversion {
    /// A pyo3 `PyResult`: the converted value, or the error converted to a VM error.
    Pyo3Result,
    /// A `rustpython_vm::PyResult`: the converted value, or the error as it is.
    RustPythonResult,
    /// `IntoObject::into_object`.
    IntoObject,
    /// `to_string`, then `to_pyobject`.
    StrToString,
    /// `ToPyObject::to_pyobject`.
    ToPyObject,
}

pub struct GetterPlan {
    pub arg: GetterArg,
    pub conversion: GetterConversion,
}

pub open spec fn getter_arg_spec(py_param: bool, vm_param: bool) -> GetterArg {
    if py_param {
        GetterArg::Python
    } else if vm_param {
        GetterArg::Vm
    } else {
        GetterArg::Nothing
    }
}

pub open spec fn getter_conversion_spec(py_param: bool, vm_param: bool, ret: Option<Seq<char>>) -> GetterConversion {
    let s = ret_text(ret);
    if !py_param && !vm_param && starts_with(s, "&str"@) {
        GetterConversion::StrToString
    } else if returns_pyo3_result_spec(ret) {
        GetterConversion::Pyo3Result
    } else if contains(s, "rustpython_vm::PyResult"@) {
        GetterConversion::RustPythonResult
    } else if contains(s, "Py<"@) {
        GetterConversion::IntoObject
    } else {
        GetterConversion::ToPyObject
    }
}

/// Plans the wrapper of a `#[getter]` that takes a `Python` token (`py_param`) or the
/// VM (`vm_param`) and returns `ret`.
pub fn getter_plan(py_param: bool, vm_param: bool, ret: Option<&str>) -> (r: GetterPlan)
    ensures
        r.arg == getter_arg_spec(py_param, vm_param),
        r.conversion == getter_conversion_spec(py_param, vm_param, opt_str(ret)),
{
    let s = return_type_text(ret);
    let arg = if py_param {
        GetterArg::Python
    } else if vm_param {
        GetterArg::Vm
    } else {
        GetterArg::Nothing
    };
    let conversion = if !py_param && !vm_param && starts_with_exec(&s, "&str") {
        GetterConversion::StrToString
    } else if returns_pyo3_result(ret) {
        GetterConversion::Pyo3Result
    } else if contains_exec(&s, "rustpython_vm::PyResult") {
        GetterConversion::RustPythonResult
    } else if contains_exec(&s, "Py<") {
        GetterConversion::IntoObject
    } else {
        GetterConversion::ToPyObject
    };
    GetterPlan { arg, conversion }
}

/// A method or getter that returns pyo3's `PyResult` always gets a generated wrapper,
/// which converts its error for the interpreter, and a getter's wrapper hands the value
/// on as a pyo3 result.
pub proof fn lemma_pyo3_results_are_wrapped(
    ret: Option<Seq<char>>,
    mut_receiver: bool,
    pyo3_params: bool,
    vm_param: bool,
)
    requires
        returns_pyo3_result_spec(ret),
    ensures
        method_needs_wrapper_spec(mut_receiver, ret, pyo3_params),
        getter_needs_wrapper_spec(vm_param, pyo3_params, ret),
        getter_conversion_spec(true, vm_param, ret) == GetterConversion::Pyo3Result,
        starts_with(ret_text(ret), "PyResult<"@) ==> getter_conversion_spec(false, vm_param, ret)
            == GetterConversion::Pyo3Result,
{
    reveal_strlit("PyResult<");
    reveal_strlit("pyo3::PyResult<");
    reveal_strlit("PyResult");
    reveal_strlit("&str");
    let s = ret_text(ret);
    let w = "PyResult"@;
    if starts_with(s, "PyResult<"@) {
        assert(s.subrange(0, 8) =~= w);
        assert(crate::text::occurs_at(s, w, 0));
        assert(s[0] == s.subrange(0, 9)[0]);
        assert(s[0] == 'P');
        if starts_with(s, "&str"@) {
            assert(s[0] == s.subrange(0, 4)[0]);
        }
    } else {
        let i = choose|i: int| crate::text::occurs_at(s, "pyo3::PyResult<"@, i);
        assert(s.subrange(i + 6, i + 14) =~= s.subrange(i, i + 15).subrange(6, 14));
        assert(s.subrange(i + 6, i + 14) =~= w);
        assert(crate::text::occurs_at(s, w, i + 6));
    }
    assert(contains(s, w));
}

} // verus!
