//! The Rust code that the attribute macros emit, as text.
//!
//! A procedural macro parses its input into the plain values taken here, and turns the
//! text given back into tokens. Each piece of code is stated exactly by a spec function
//! over the parameter plans of `signature` and the return plans of `results`.
use vstd::prelude::*;
use vstd::string::StringExecFns;
use crate::attrs::{
    from_py_object_plan, from_py_object_plan_spec, module_attr_name, module_name_from_attr,
    class_options, module_name_choice, path_answers_ok, module_symbols, opt_view, parse_pyclass_options,
    ClassOptionsModel, DeriveError, Extraction, ItemShape,
};
use crate::methods::string_views;
use crate::results::{
    angles_ordered, function_return, getter_arg_spec, getter_conversion_spec, getter_plan,
    getter_needs_wrapper, getter_needs_wrapper_spec, iter_returns_self, method_needs_wrapper,
    method_needs_wrapper_spec, setter_needs_wrapper, setter_returns_result, GetterArg, GetterConversion, function_return_plan, opt_str, plain_conversion,
    plain_return_conversion, pyresult_inner_text, result_conversion, result_return_plan, ret_text,
    returns_pyo3_result,
    returns_pyo3_result_spec, Conversion, FnReturn,
};
use crate::text::{
    contains, contains_exec, ends_with, eq_exec, lemma_contains_middle, lemma_contains_within, occurs_at,
    split_char, starts_with,
};
use crate::tokens::{capital_ident, has_ascii_letter, path_answer_ok, plain_ident, type_like, upper_case};
use crate::slots::{alias_of, defined, lemma_slot_methods_reach_their_slots, mirrored_dunders, slot_alias};
use crate::methods::{
    base_slices_defined, base_type_spec, constructor_base_is_path, constructor_base_text, constructor_plan_given, has_pyo3_params, has_pyo3_params_spec,
    mentions_self_pair, method_role, method_role_spec, pair_views, wrapper_param,
    wrapper_param_spec, MethodRole, OptionalBound, WrapperParam,
    WrapperParamKind,
};
use crate::signature::{
    function_arg_kind, function_arg_plan, method_arg_kind, method_arg_plan, ArgKind, ArgPlan,
    compact, compact_type, OptKind, OptPlan,
};

verus! {

// ─── Pieces ──────────────────────────────────────────────────────────────────

/// Takes the argument called `n` out of the call's arguments: by position or keyword,
/// or, where `pos`, the next positional argument.
pub open spec fn take_arg(n: Seq<char>, pos: bool) -> Seq<char> {
    if pos {
        "__args.take_positional()"@
    } else {
        "__args.take_positional_keyword(\""@ + n + "\")"@
    }
}

/// Turns a missing argument `n` into a `TypeError`.
pub open spec fn missing(n: Seq<char>) -> Seq<char> {
    ".ok_or_else(|| __vm.new_type_error(format!(\"missing required argument: {}\", \""@ + n
        + "\")))?"@
}

/// The argument called `n`, which must be given.
pub open spec fn required(n: Seq<char>, pos: bool) -> Seq<char> {
    take_arg(n, pos) + missing(n)
}

/// The object `e` as a `Bound<PyAny>`.
pub open spec fn bound_of(e: Seq<char>) -> Seq<char> {
    "::pyo3::Bound::from_object(::pyo3::Python::from_vm(__vm), "@ + e + ")"@
}

/// The trait through which a parameter is read: with its lifetimes written out in a
/// `#[pyfunction]` wrapper, without them in a method wrapper (`pos`).
pub open spec fn from_py_object_trait(pos: bool) -> Seq<char> {
    if pos {
        " as ::pyo3::FromPyObject>::extract_bound(&"@
    } else {
        " as ::pyo3::FromPyObject<'_, '_>>::extract_bound(&"@
    }
}

/// The object `e` read as `t` with `FromPyObject`, its error raised in Python.
pub open spec fn extract_via(t: Seq<char>, e: Seq<char>, pos: bool) -> Seq<char> {
    "<"@ + t + from_py_object_trait(pos) + bound_of(e) + ").map_err(::pyo3::err::into_vm_err)?"@
}

/// The object `e` converted with RustPython's `try_into_value`.
pub open spec fn value_of(e: Seq<char>) -> Seq<char> {
    e + ".try_into_value(__vm)?"@
}

/// `let n = e;` on a line of its own.
pub open spec fn let_plain(n: Seq<char>, e: Seq<char>) -> Seq<char> {
    "let "@ + n + " = "@ + e + ";\n"@
}

/// `let n: t = e;` on a line of its own.
pub open spec fn let_typed(n: Seq<char>, t: Seq<char>, e: Seq<char>) -> Seq<char> {
    "let "@ + n + ": "@ + t + " = "@ + e + ";\n"@
}

/// The name under which a parameter's `Bound` is kept.
pub open spec fn bound_name(n: Seq<char>) -> Seq<char> {
    "__bound_"@ + n
}

/// `Some(..)` of the inner expression for a present argument, `None` otherwise.
pub open spec fn map_present(n: Seq<char>, inner: Seq<char>) -> Seq<char> {
    "match "@ + n + " { Some(__o) => Some("@ + inner + "), None => None }"@
}

pub open spec fn py_str_ref() -> Seq<char> {
    "::rustpython_vm::builtins::PyStrRef"@
}

pub open spec fn py_bytes_ref() -> Seq<char> {
    "::rustpython_vm::builtins::PyBytesRef"@
}

fn cat(s: String, t: &str) -> (r: String)
    ensures
        r@ == s@ + t@,
{
    s.concat(t)
}

fn take_arg_code(n: &str, pos: bool) -> (r: String)
    ensures
        r@ == take_arg(n@, pos),
{
    if pos {
        String::from_str("__args.take_positional()")
    } else {
        cat(cat(String::from_str("__args.take_positional_keyword(\""), n), "\")")
    }
}

fn required_code(n: &str, pos: bool) -> (r: String)
    ensures
        r@ == required(n@, pos),
{
    let s = cat(
        cat(
            String::from_str(
                ".ok_or_else(|| __vm.new_type_error(format!(\"missing required argument: {}\", \"",
            ),
            n,
        ),
        "\")))?",
    );
    cat(take_arg_code(n, pos), s.as_str())
}

fn bound_of_code(e: &str) -> (r: String)
    ensures
        r@ == bound_of(e@),
{
    cat(cat(String::from_str("::pyo3::Bound::from_object(::pyo3::Python::from_vm(__vm), "), e), ")")
}

fn extract_via_code(t: &str, e: &str, pos: bool) -> (r: String)
    ensures
        r@ == extract_via(t@, e@, pos),
{
    let b = bound_of_code(e);
    let tr = if pos {
        " as ::pyo3::FromPyObject>::extract_bound(&"
    } else {
        " as ::pyo3::FromPyObject<'_, '_>>::extract_bound(&"
    };
    let s = cat(cat(cat(String::from_str("<"), t), tr), b.as_str());
    cat(s, ").map_err(::pyo3::err::into_vm_err)?")
}

fn value_of_code(e: &str) -> (r: String)
    ensures
        r@ == value_of(e@),
{
    cat(String::from_str(e), ".try_into_value(__vm)?")
}

fn let_plain_code(n: &str, e: &str) -> (r: String)
    ensures
        r@ == let_plain(n@, e@),
{
    cat(cat(cat(cat(String::from_str("let "), n), " = "), e), ";\n")
}

fn let_typed_code(n: &str, t: &str, e: &str) -> (r: String)
    ensures
        r@ == let_typed(n@, t@, e@),
{
    cat(cat(cat(cat(cat(cat(String::from_str("let "), n), ": "), t), " = "), e), ";\n")
}

fn bound_name_code(n: &str) -> (r: String)
    ensures
        r@ == bound_name(n@),
{
    cat(String::from_str("__bound_"), n)
}

fn map_present_code(n: &str, inner: &str) -> (r: String)
    ensures
        r@ == map_present(n@, inner@),
{
    cat(
        cat(cat(cat(String::from_str("match "), n), " { Some(__o) => Some("), inner),
        "), None => None }",
    )
}

// ─── Parameters ──────────────────────────────────────────────────────────────

/// The statements that bind the optional parameter `n`, whose variable already holds the
/// argument if it was given and is not `None`.
pub open spec fn opt_extraction(n: Seq<char>, k: OptKind, pos: bool) -> Seq<char> {
    match k {
        OptKind::RefBound => let_plain(
            bound_name(n),
            n + ".map(|__o| "@ + bound_of("__o"@) + ")"@,
        ),
        OptKind::RefPy(t) => let_typed(n, "Option<"@ + t + ">"@, n + ".map(::pyo3::Py::from)"@),
        OptKind::RefExtract(t) => let_typed(
            n,
            "Option<&"@ + t + ">"@,
            map_present(n, extract_via("&"@ + t, "__o"@, pos)),
        ),
        OptKind::Scalar(t) => let_typed(n, "Option<"@ + t + ">"@, map_present(n, value_of("__o"@))),
        OptKind::OwnedString => let_typed(
            n,
            "Option<String>"@,
            map_present(n, "{ let __s: "@ + py_str_ref() + " = "@ + value_of("__o"@) + "; __s.to_string() }"@),
        ),
        OptKind::Bound => let_plain(bound_name(n), n + ".map(|__o| "@ + bound_of("__o"@) + ")"@),
        OptKind::Extract(t) => let_typed(n, "Option<"@ + t + ">"@, map_present(n, extract_via(t, "__o"@, pos))),
    }
}

/// The expression passed for the optional parameter `n`.
pub open spec fn opt_call(n: Seq<char>, k: OptKind) -> Seq<char> {
    match k {
        OptKind::RefBound => bound_name(n) + ".as_ref()"@,
        OptKind::RefPy(_) => n + ".as_ref()"@,
        OptKind::Bound => bound_name(n),
        _ => n,
    }
}

/// The statements that bind parameter `n`, planned as `k`; `conv` is the text of its
/// `from_py_with` converter, read only for that plan.
pub open spec fn arg_extraction(n: Seq<char>, k: ArgKind, conv: Seq<char>, pos: bool) -> Seq<char> {
    match k {
        ArgKind::Python => Seq::empty(),
        ArgKind::FromPyWith => let_plain(
            n,
            conv + "(&"@ + bound_of(required(n, pos)) + ").map_err(::pyo3::err::into_vm_err)?"@,
        ),
        ArgKind::RefBound => let_plain(n, required(n, pos)) + let_plain(bound_name(n), bound_of(n)),
        ArgKind::RefPy(t) => let_typed(n, t, "::pyo3::Py::from("@ + required(n, pos) + ")"@),
        ArgKind::RefExtract(t) => let_plain(n, extract_via("&"@ + t, required(n, pos), pos)),
        ArgKind::Optional(o) => let_plain(n, take_arg(n, pos) + ".filter(|__o| !__vm.is_none(__o))"@)
            + opt_extraction(n, o, pos),
        ArgKind::Str => let_typed(n, py_str_ref(), value_of(required(n, pos))),
        ArgKind::OwnedString => let_typed(n, py_str_ref(), value_of(required(n, pos))),
        ArgKind::Signed(t) => let_typed(n, if pos {
            "i64"@
        } else {
            t
        }, value_of(required(n, pos))),
        ArgKind::Unsigned(t) => let_typed(n, if pos {
            "u64"@
        } else {
            t
        }, value_of(required(n, pos))),
        ArgKind::Float(_) => let_typed(n, "f64"@, value_of(required(n, pos))),
        ArgKind::Bool => let_typed(n, "bool"@, value_of(required(n, pos))),
        ArgKind::Bytes => let_typed(n, py_bytes_ref(), value_of(required(n, pos))),
        ArgKind::BoundValue => let_plain(n, required(n, pos)) + let_plain(bound_name(n), bound_of(n)),
        ArgKind::Extract(t) => let_plain(n, extract_via(t, required(n, pos), pos)),
    }
}

/// The expression passed to the Rust function for parameter `n`, planned as `k`.
pub open spec fn arg_call(n: Seq<char>, k: ArgKind, pos: bool) -> Seq<char> {
    match k {
        ArgKind::Python => "::pyo3::Python::from_vm(__vm)"@,
        ArgKind::RefBound => "&"@ + bound_name(n),
        ArgKind::RefPy(_) => if pos {
            n
        } else {
            "&"@ + n
        },
        ArgKind::Optional(o) => opt_call(n, o),
        ArgKind::Str => n + ".as_str()"@,
        ArgKind::OwnedString => n + ".to_string()"@,
        ArgKind::Signed(t) | ArgKind::Unsigned(t) => if pos {
            n + " as "@ + t
        } else {
            n
        },
        ArgKind::Float(t) => n + " as "@ + t,
        ArgKind::Bytes => n + ".as_bytes().to_vec()"@,
        ArgKind::BoundValue => bound_name(n),
        _ => n,
    }
}

fn opt_extraction_code(n: &str, k: &OptPlan, pos: bool) -> (r: String)
    ensures
        r@ == opt_extraction(n@, k@, pos),
{
    match k {
        OptPlan::RefBound | OptPlan::Bound => {
            let b = bound_of_code("__o");
            let e = cat(cat(cat(String::from_str(n), ".map(|__o| "), b.as_str()), ")");
            let bn = bound_name_code(n);
            let_plain_code(bn.as_str(), e.as_str())
        },
        OptPlan::RefPy(t) => {
            let ty = cat(cat(String::from_str("Option<"), t.as_str()), ">");
            let e = cat(String::from_str(n), ".map(::pyo3::Py::from)");
            let_typed_code(n, ty.as_str(), e.as_str())
        },
        OptPlan::RefExtract(t) => {
            let ty = cat(cat(String::from_str("Option<&"), t.as_str()), ">");
            let rt = cat(String::from_str("&"), t.as_str());
            let x = extract_via_code(rt.as_str(), "__o", pos);
            let e = map_present_code(n, x.as_str());
            let_typed_code(n, ty.as_str(), e.as_str())
        },
        OptPlan::Scalar(t) => {
            let ty = cat(cat(String::from_str("Option<"), t.as_str()), ">");
            let v = value_of_code("__o");
            let e = map_present_code(n, v.as_str());
            let_typed_code(n, ty.as_str(), e.as_str())
        },
        OptPlan::OwnedString => {
            let v = value_of_code("__o");
            let inner = cat(
                cat(
                    cat(String::from_str("{ let __s: "), "::rustpython_vm::builtins::PyStrRef"),
                    " = ",
                ),
                v.as_str(),
            );
            let inner = cat(inner, "; __s.to_string() }");
            let e = map_present_code(n, inner.as_str());
            let_typed_code(n, "Option<String>", e.as_str())
        },
        OptPlan::Extract(t) => {
            let ty = cat(cat(String::from_str("Option<"), t.as_str()), ">");
            let x = extract_via_code(t.as_str(), "__o", pos);
            let e = map_present_code(n, x.as_str());
            let_typed_code(n, ty.as_str(), e.as_str())
        },
    }
}

fn opt_call_code(n: &str, k: &OptPlan) -> (r: String)
    ensures
        r@ == opt_call(n@, k@),
{
    match k {
        OptPlan::RefBound => cat(bound_name_code(n), ".as_ref()"),
        OptPlan::RefPy(_) => cat(String::from_str(n), ".as_ref()"),
        OptPlan::Bound => bound_name_code(n),
        _ => String::from_str(n),
    }
}

fn arg_extraction_code(n: &str, k: &ArgPlan, conv: &str, pos: bool) -> (r: String)
    ensures
        r@ == arg_extraction(n@, k@, conv@, pos),
{
    match k {
        ArgPlan::Python => String::new(),
        ArgPlan::FromPyWith => {
            let b = bound_of_code(required_code(n, pos).as_str());
            let e = cat(cat(cat(String::from_str(conv), "(&"), b.as_str()), ").map_err(::pyo3::err::into_vm_err)?");
            let_plain_code(n, e.as_str())
        },
        ArgPlan::RefBound | ArgPlan::BoundValue => {
            let first = let_plain_code(n, required_code(n, pos).as_str());
            let bn = bound_name_code(n);
            let second = let_plain_code(bn.as_str(), bound_of_code(n).as_str());
            cat(first, second.as_str())
        },
        ArgPlan::RefPy(t) => {
            let e = cat(cat(String::from_str("::pyo3::Py::from("), required_code(n, pos).as_str()), ")");
            let_typed_code(n, t.as_str(), e.as_str())
        },
        ArgPlan::RefExtract(t) => {
            let rt = cat(String::from_str("&"), t.as_str());
            let e = extract_via_code(rt.as_str(), required_code(n, pos).as_str(), pos);
            let_plain_code(n, e.as_str())
        },
        ArgPlan::Optional(o) => {
            let e = cat(take_arg_code(n, pos), ".filter(|__o| !__vm.is_none(__o))");
            let first = let_plain_code(n, e.as_str());
            cat(first, opt_extraction_code(n, o, pos).as_str())
        },
        ArgPlan::Str | ArgPlan::OwnedString => {
            let v = value_of_code(required_code(n, pos).as_str());
            let_typed_code(n, "::rustpython_vm::builtins::PyStrRef", v.as_str())
        },
        ArgPlan::Signed(t) => {
            let v = value_of_code(required_code(n, pos).as_str());
            let_typed_code(n, if pos {
                "i64"
            } else {
                t.as_str()
            }, v.as_str())
        },
        ArgPlan::Unsigned(t) => {
            let v = value_of_code(required_code(n, pos).as_str());
            let_typed_code(n, if pos {
                "u64"
            } else {
                t.as_str()
            }, v.as_str())
        },
        ArgPlan::Float(_) => {
            let v = value_of_code(required_code(n, pos).as_str());
            let_typed_code(n, "f64", v.as_str())
        },
        ArgPlan::Bool => {
            let v = value_of_code(required_code(n, pos).as_str());
            let_typed_code(n, "bool", v.as_str())
        },
        ArgPlan::Bytes => {
            let v = value_of_code(required_code(n, pos).as_str());
            let_typed_code(n, "::rustpython_vm::builtins::PyBytesRef", v.as_str())
        },
        ArgPlan::Extract(t) => {
            let e = extract_via_code(t.as_str(), required_code(n, pos).as_str(), pos);
            let_plain_code(n, e.as_str())
        },
    }
}

fn arg_call_code(n: &str, k: &ArgPlan, pos: bool) -> (r: String)
    ensures
        r@ == arg_call(n@, k@, pos),
{
    match k {
        ArgPlan::Python => String::from_str("::pyo3::Python::from_vm(__vm)"),
        ArgPlan::RefBound => cat(String::from_str("&"), bound_name_code(n).as_str()),
        ArgPlan::RefPy(_) => if pos {
            String::from_str(n)
        } else {
            cat(String::from_str("&"), n)
        },
        ArgPlan::Optional(o) => opt_call_code(n, o),
        ArgPlan::Str => cat(String::from_str(n), ".as_str()"),
        ArgPlan::OwnedString => cat(String::from_str(n), ".to_string()"),
        ArgPlan::Signed(t) | ArgPlan::Unsigned(t) => if pos {
            cat(cat(String::from_str(n), " as "), t.as_str())
        } else {
            String::from_str(n)
        },
        ArgPlan::Float(t) => cat(cat(String::from_str(n), " as "), t.as_str()),
        ArgPlan::Bytes => cat(String::from_str(n), ".as_bytes().to_vec()"),
        ArgPlan::BoundValue => bound_name_code(n),
        _ => String::from_str(n),
    }
}

/// The text of an optional converter; empty where there is none.
pub open spec fn conv_text(c: Option<&str>) -> Seq<char> {
    match c {
        Some(t) => t@,
        None => Seq::empty(),
    }
}

/// The code that a `#[pyfunction]` wrapper runs for parameter `name` of rendered type
/// `ty`: the statements that take it from the call's arguments, and the expression
/// passed to the Rust function. `from_py_with` is the text of the parameter's
/// `#[pyo3(from_py_with = ..)]` converter.
pub fn function_arg_code(name: &str, ty: &str, from_py_with: Option<&str>) -> (r: (String, String))
    ensures
        r.0@ == arg_extraction(name@, function_arg_kind(ty@, from_py_with is Some), conv_text(from_py_with), false),
        r.1@ == arg_call(name@, function_arg_kind(ty@, from_py_with is Some), false),
{
    let plan = function_arg_plan(ty, from_py_with.is_some());
    let conv = match from_py_with {
        Some(c) => c,
        None => "",
    };
    (arg_extraction_code(name, &plan, conv, false), arg_call_code(name, &plan, false))
}

/// The code that the wrapper of a static or class method of `#[pymethods]` runs for
/// parameter `name` of rendered type `ty`: the statements that take it from the call's
/// arguments, and the expression passed to the method.
pub fn method_arg_code(name: &str, ty: &str) -> (r: (String, String))
    ensures
        r.0@ == arg_extraction(name@, method_arg_kind(ty@), Seq::empty(), true),
        r.1@ == arg_call(name@, method_arg_kind(ty@), true),
{
    let plan = method_arg_plan(ty);
    (arg_extraction_code(name, &plan, "", true), arg_call_code(name, &plan, true))
}

// ─── #[pyfunction] ───────────────────────────────────────────────────────────

/// A parameter of a `#[pyfunction]`, as the macro reads it: its name, its rendered
/// type, and the text of its `from_py_with` converter, if it has one.
pub struct ParamSig {
    pub name: String,
    pub ty: String,
    pub from_py_with: Option<String>,
}

/// The mathematical content of a `ParamSig`.
pub struct ParamModel {
    pub name: Seq<char>,
    pub ty: Seq<char>,
    pub from_py_with: Option<Seq<char>>,
}

impl View for ParamSig {
    type V = ParamModel;

    open spec fn view(&self) -> ParamModel {
        ParamModel { name: self.name@, ty: self.ty@, from_py_with: opt_view(self.from_py_with) }
    }
}

pub open spec fn param_views(ps: Seq<ParamSig>) -> Seq<ParamModel> {
    Seq::new(ps.len(), |i: int| ps[i]@)
}

/// The plan of a parameter: that of `#[pyfunction]`, or, for `method`, that of a static
/// or class method of `#[pymethods]` (which reads no converter).
/// `#[pyfunction]` passes the `Python` token for a parameter whose type mentions it
/// before it looks at the parameter's converter.
pub open spec fn param_kind(p: ParamModel, method: bool) -> ArgKind {
    if method {
        method_arg_kind(p.ty)
    } else if contains(compact(p.ty), "Python"@) {
        ArgKind::Python
    } else {
        function_arg_kind(p.ty, p.from_py_with is Some)
    }
}

pub open spec fn param_extraction(p: ParamModel, method: bool) -> Seq<char> {
    arg_extraction(
        p.name,
        param_kind(p, method),
        match p.from_py_with {
            Some(c) => if method {
                Seq::empty()
            } else {
                c
            },
            None => Seq::empty(),
        },
        method,
    )
}

/// The statements that take all the parameters, in order.
pub open spec fn extractions(ps: Seq<ParamModel>, method: bool) -> Seq<char>
    decreases ps.len(),
{
    if ps.len() == 0 {
        Seq::empty()
    } else {
        extractions(ps.drop_last(), method) + param_extraction(ps.last(), method)
    }
}

/// The arguments of the call to the Rust function, separated by commas.
pub open spec fn call_args(ps: Seq<ParamModel>, method: bool) -> Seq<char>
    decreases ps.len(),
{
    if ps.len() == 0 {
        Seq::empty()
    } else if ps.len() == 1 {
        arg_call(ps[0].name, param_kind(ps[0], method), method)
    } else {
        call_args(ps.drop_last(), method) + ", "@ + arg_call(ps.last().name, param_kind(ps.last(), method), method)
    }
}

/// The expression that hands the Rust function's result `__result` to Python.
pub open spec fn return_transform(r: FnReturn) -> Seq<char> {
    match r {
        FnReturn::NoneValue => "Ok(__vm.ctx.none())"@,
        FnReturn::ResultUnit => "__result.map(|_| __vm.ctx.none()).map_err(::pyo3::err::into_vm_err)"@,
        FnReturn::ResultValue => "__result.and_then(|__v| ::pyo3::IntoPyObject::into_pyobject(__v, ::pyo3::Python::from_vm(__vm)).map(|__b| { let __obj: ::rustpython_vm::PyObjectRef = __b.into_any().into(); __obj })).map_err(::pyo3::err::into_vm_err)"@,
        FnReturn::Value => "::pyo3::IntoPyObject::into_pyobject(__result, ::pyo3::Python::from_vm(__vm)).map(|__b| { let __obj: ::rustpython_vm::PyObjectRef = __b.into_any().into(); __obj }).map_err(::pyo3::err::into_vm_err)"@,
    }
}

/// What the wrapper of a `#[pyfunction]` hands Python, by the function's return type
/// `ret`: `None` for a function that returns nothing or `()`; for `PyResult<()>`, `None`
/// on success; for any other `PyResult<T>`, the success value converted with
/// `IntoPyObject::into_pyobject`; for any other type, the value converted the same way.
/// Errors are raised in both `PyResult` cases.
pub proof fn lemma_pyfunction_result_reaches_python(ret: Option<Seq<char>>)
    ensures
        (ret is None || compact(ret->0) == "()"@)
            ==> return_transform(function_return(ret)) == "Ok(__vm.ctx.none())"@,
        (ret matches Some(ty) && compact(ty) == "PyResult<()>"@)
            ==> starts_with(return_transform(function_return(ret)), "__result.map(|_| __vm.ctx.none())"@),
        (ret matches Some(ty) && contains(compact(ty), "PyResult"@) && compact(ty) != "PyResult<()>"@)
            ==> starts_with(
                return_transform(function_return(ret)),
                "__result.and_then(|__v| ::pyo3::IntoPyObject::into_pyobject(__v, "@,
            ),
        (ret matches Some(ty) && !contains(compact(ty), "PyResult"@) && compact(ty) != "()"@)
            ==> starts_with(
                return_transform(function_return(ret)),
                "::pyo3::IntoPyObject::into_pyobject(__result, "@,
            ),
        (ret matches Some(ty) && contains(compact(ty), "PyResult"@))
            ==> ends_with(return_transform(function_return(ret)), ".map_err(::pyo3::err::into_vm_err)"@),
{
    reveal_strlit("()");
    reveal_strlit("PyResult");
    reveal_strlit("PyResult<()>");
    reveal_strlit("Ok(__vm.ctx.none())");
    reveal_strlit("__result.map(|_| __vm.ctx.none()).map_err(::pyo3::err::into_vm_err)");
    reveal_strlit("__result.map(|_| __vm.ctx.none())");
    reveal_strlit("__result.and_then(|__v| ::pyo3::IntoPyObject::into_pyobject(__v, ::pyo3::Python::from_vm(__vm)).map(|__b| { let __obj: ::rustpython_vm::PyObjectRef = __b.into_any().into(); __obj })).map_err(::pyo3::err::into_vm_err)");
    reveal_strlit("__result.and_then(|__v| ::pyo3::IntoPyObject::into_pyobject(__v, ");
    reveal_strlit("::pyo3::IntoPyObject::into_pyobject(__result, ::pyo3::Python::from_vm(__vm)).map(|__b| { let __obj: ::rustpython_vm::PyObjectRef = __b.into_any().into(); __obj }).map_err(::pyo3::err::into_vm_err)");
    reveal_strlit("::pyo3::IntoPyObject::into_pyobject(__result, ");
    reveal_strlit(".map_err(::pyo3::err::into_vm_err)");
    let unit = "__result.map(|_| __vm.ctx.none()).map_err(::pyo3::err::into_vm_err)"@;
    let value = "__result.and_then(|__v| ::pyo3::IntoPyObject::into_pyobject(__v, ::pyo3::Python::from_vm(__vm)).map(|__b| { let __obj: ::rustpython_vm::PyObjectRef = __b.into_any().into(); __obj })).map_err(::pyo3::err::into_vm_err)"@;
    let plain = "::pyo3::IntoPyObject::into_pyobject(__result, ::pyo3::Python::from_vm(__vm)).map(|__b| { let __obj: ::rustpython_vm::PyObjectRef = __b.into_any().into(); __obj }).map_err(::pyo3::err::into_vm_err)"@;
    let tail = ".map_err(::pyo3::err::into_vm_err)"@;
    assert(unit.subrange(0, 33) =~= "__result.map(|_| __vm.ctx.none())"@);
    assert(value.subrange(0, 65) =~= "__result.and_then(|__v| ::pyo3::IntoPyObject::into_pyobject(__v, "@);
    assert(plain.subrange(0, 46) =~= "::pyo3::IntoPyObject::into_pyobject(__result, "@);
    assert(unit.subrange(unit.len() - tail.len(), unit.len() as int) =~= tail);
    assert(value.subrange(value.len() - tail.len(), value.len() as int) =~= tail);
    assert(contains("PyResult<()>"@, "PyResult"@)) by {
        assert("PyResult<()>"@.subrange(0, 8) =~= "PyResult"@);
        assert(occurs_at("PyResult<()>"@, "PyResult"@, 0));
    }
    assert(!contains("()"@, "PyResult"@)) by {
        assert forall|i: int| !occurs_at("()"@, "PyResult"@, i) by {}
    }
}

/// The Python name of a `#[pyfunction]`: `name = "..."` from its attribute, else the
/// function's own name.
pub open spec fn function_py_name(fn_name: Seq<char>, attr: Seq<char>) -> Seq<char> {
    match module_attr_name(attr) {
        Some(n) => n,
        None => fn_name,
    }
}

/// The items that `#[pyfunction]` emits beside the function `f`: `__pyo3_fn_<f>`, which
/// builds the Python callable named `py`, and `__pyo3_wrap_symbol_<f>`, the same behind
/// an unmangled symbol.
pub open spec fn pyfunction_text(f: Seq<char>, py: Seq<char>, ps: Seq<ParamModel>, ret: FnReturn) -> Seq<char> {
    "#[doc(hidden)]\n#[allow(non_snake_case, dead_code)]\npub fn __pyo3_fn_"@ + f
        + "<'__py>(__py: ::pyo3::Python<'__py>) -> ::pyo3::Bound<'__py, ::pyo3::types::PyAny> {\nlet __vm = __py.vm();\nlet __heap_def = __vm.ctx.new_method_def(\""@
        + py
        + "\", {\nfn __pyo3_impl(__args: ::rustpython_vm::function::FuncArgs, __vm: &::rustpython_vm::VirtualMachine) -> ::rustpython_vm::PyResult<::rustpython_vm::PyObjectRef> {\nlet mut __args = __args;\n"@
        + extractions(ps, false) + "let __result = "@ + f + "("@ + call_args(ps, false) + ");\n"@
        + return_transform(ret)
        + "\n}\n__pyo3_impl\n}, ::rustpython_vm::function::PyMethodFlags::empty(), None);\nlet __callable = __heap_def.build_function(__vm);\n::pyo3::Bound::from_object(__py, __callable.into())\n}\n#[doc(hidden)]\n#[no_mangle]\npub fn __pyo3_wrap_symbol_"@
        + f + "(__py: ::pyo3::Python<'_>) -> ::rustpython_vm::PyObjectRef {\nlet __bound = __pyo3_fn_"@ + f
        + "(__py);\nlet __obj: ::rustpython_vm::PyObjectRef = __bound.into_any().into();\n__obj\n}\n"@
}

fn return_transform_code(r: FnReturn) -> (t: &'static str)
    ensures
        t@ == return_transform(r),
{
    match r {
        FnReturn::NoneValue => "Ok(__vm.ctx.none())",
        FnReturn::ResultUnit => "__result.map(|_| __vm.ctx.none()).map_err(::pyo3::err::into_vm_err)",
        FnReturn::ResultValue => "__result.and_then(|__v| ::pyo3::IntoPyObject::into_pyobject(__v, ::pyo3::Python::from_vm(__vm)).map(|__b| { let __obj: ::rustpython_vm::PyObjectRef = __b.into_any().into(); __obj })).map_err(::pyo3::err::into_vm_err)",
        FnReturn::Value => "::pyo3::IntoPyObject::into_pyobject(__result, ::pyo3::Python::from_vm(__vm)).map(|__b| { let __obj: ::rustpython_vm::PyObjectRef = __b.into_any().into(); __obj }).map_err(::pyo3::err::into_vm_err)",
    }
}

/// The statements and the call arguments for all the parameters.
fn params_code(ps: &Vec<ParamSig>, method: bool) -> (r: (String, String))
    ensures
        r.0@ == extractions(param_views(ps@), method),
        r.1@ == call_args(param_views(ps@), method),
{
    let mut stmts = String::new();
    let mut args = String::new();
    let mut i: usize = 0;
    while i < ps.len()
        invariant
            i <= ps@.len(),
            stmts@ == extractions(param_views(ps@).take(i as int), method),
            args@ == call_args(param_views(ps@).take(i as int), method),
        decreases ps@.len() - i,
    {
        let p = &ps[i];
        let (e, c) = if method {
            method_arg_code(p.name.as_str(), p.ty.as_str())
        } else if contains_exec(&compact_type(p.ty.as_str()), "Python") {
            (String::new(), String::from_str("::pyo3::Python::from_vm(__vm)"))
        } else {
            let conv: Option<&str> = match &p.from_py_with {
                Some(c) => Some(c.as_str()),
                None => None,
            };
            function_arg_code(p.name.as_str(), p.ty.as_str(), conv)
        };
        proof {
            let all = param_views(ps@);
            let next = all.take(i + 1);
            assert(next.drop_last() =~= all.take(i as int));
            assert(next.last() == ps@[i as int]@);
        }
        stmts = cat(stmts, e.as_str());
        if i > 0 {
            args = cat(args, ", ");
        }
        args = cat(args, c.as_str());
        i = i + 1;
    }
    assert(param_views(ps@).take(ps@.len() as int) =~= param_views(ps@));
    (stmts, args)
}

/// The items that `#[pyfunction]` emits beside the function `fn_name`, given the text
/// of its attribute, its parameters and its rendered return type (`None` where it
/// declares none).
pub fn pyfunction_code(fn_name: &str, attr: &str, params: &Vec<ParamSig>, ret: Option<&str>) -> (r: String)
    ensures
        r@ == pyfunction_text(
            fn_name@,
            function_py_name(fn_name@, attr@),
            param_views(params@),
            function_return(opt_str(ret)),
        ),
{
    let py = match module_name_from_attr(attr) {
        Some(n) => n,
        None => String::from_str(fn_name),
    };
    let (stmts, args) = params_code(params, false);
    let transform = return_transform_code(function_return_plan(ret));
    let s = cat(String::from_str("#[doc(hidden)]\n#[allow(non_snake_case, dead_code)]\npub fn __pyo3_fn_"), fn_name);
    let s = cat(s, "<'__py>(__py: ::pyo3::Python<'__py>) -> ::pyo3::Bound<'__py, ::pyo3::types::PyAny> {\nlet __vm = __py.vm();\nlet __heap_def = __vm.ctx.new_method_def(\"");
    let s = cat(s, py.as_str());
    let s = cat(s, "\", {\nfn __pyo3_impl(__args: ::rustpython_vm::function::FuncArgs, __vm: &::rustpython_vm::VirtualMachine) -> ::rustpython_vm::PyResult<::rustpython_vm::PyObjectRef> {\nlet mut __args = __args;\n");
    let s = cat(s, stmts.as_str());
    let s = cat(s, "let __result = ");
    let s = cat(s, fn_name);
    let s = cat(s, "(");
    let s = cat(s, args.as_str());
    let s = cat(s, ");\n");
    let s = cat(s, transform);
    let s = cat(s, "\n}\n__pyo3_impl\n}, ::rustpython_vm::function::PyMethodFlags::empty(), None);\nlet __callable = __heap_def.build_function(__vm);\n::pyo3::Bound::from_object(__py, __callable.into())\n}\n#[doc(hidden)]\n#[no_mangle]\npub fn __pyo3_wrap_symbol_");
    let s = cat(s, fn_name);
    let s = cat(s, "(__py: ::pyo3::Python<'_>) -> ::rustpython_vm::PyObjectRef {\nlet __bound = __pyo3_fn_");
    let s = cat(s, fn_name);
    cat(s, "(__py);\nlet __obj: ::rustpython_vm::PyObjectRef = __bound.into_any().into();\n__obj\n}\n")
}

// ─── #[derive(FromPyObject)] ─────────────────────────────────────────────────

/// The digit `d`, for `d < 10`.
pub open spec fn digit_text(d: nat) -> Seq<char> {
    if d == 0 {
        "0"@
    } else if d == 1 {
        "1"@
    } else if d == 2 {
        "2"@
    } else if d == 3 {
        "3"@
    } else if d == 4 {
        "4"@
    } else if d == 5 {
        "5"@
    } else if d == 6 {
        "6"@
    } else if d == 7 {
        "7"@
    } else if d == 8 {
        "8"@
    } else {
        "9"@
    }
}

/// The decimal digits of `n`.
pub open spec fn decimal(n: nat) -> Seq<char>
    decreases n,
{
    if n < 10 {
        digit_text(n)
    } else {
        decimal(n / 10) + digit_text(n % 10)
    }
}

fn digit_code(d: usize) -> (r: &'static str)
    requires
        d < 10,
    ensures
        r@ == digit_text(d as nat),
{
    if d == 0 {
        "0"
    } else if d == 1 {
        "1"
    } else if d == 2 {
        "2"
    } else if d == 3 {
        "3"
    } else if d == 4 {
        "4"
    } else if d == 5 {
        "5"
    } else if d == 6 {
        "6"
    } else if d == 7 {
        "7"
    } else if d == 8 {
        "8"
    } else {
        "9"
    }
}

fn decimal_code(n: usize) -> (r: String)
    ensures
        r@ == decimal(n as nat),
    decreases n,
{
    if n < 10 {
        String::from_str(digit_code(n))
    } else {
        cat(decimal_code(n / 10), digit_code(n % 10))
    }
}

/// The variable that holds field `i` while the struct is built.
pub open spec fn field_var(i: nat) -> Seq<char> {
    "_f"@ + decimal(i)
}

/// `_f0, _f1, ..` for the first `n` fields.
pub open spec fn field_vars(n: nat) -> Seq<char>
    decreases n,
{
    if n == 0 {
        Seq::empty()
    } else if n == 1 {
        field_var(0)
    } else {
        field_vars((n - 1) as nat) + ", "@ + field_var((n - 1) as nat)
    }
}

/// The types of the fields, separated by commas.
pub open spec fn type_list(ts: Seq<Seq<char>>) -> Seq<char>
    decreases ts.len(),
{
    if ts.len() == 0 {
        Seq::empty()
    } else if ts.len() == 1 {
        ts[0]
    } else {
        type_list(ts.drop_last()) + ", "@ + ts.last()
    }
}

/// A tuple of the listed items; one item is followed by a comma, so that it stays a tuple.
pub open spec fn tuple_of(items: Seq<char>, n: nat) -> Seq<char> {
    if n == 1 {
        "("@ + items + ",)"@
    } else {
        "("@ + items + ")"@
    }
}

/// The head of a derived `FromPyObject` impl for `ident`, up to the body of `extract_bound`.
pub open spec fn impl_head(ident: Seq<char>) -> Seq<char> {
    "impl<'py> ::pyo3::FromPyObject<'py> for "@ + ident
        + " {\nfn extract_bound(ob: &::pyo3::Bound<'py, ::pyo3::types::PyAny>) -> ::pyo3::PyResult<Self> {\n"@
}

/// The impl that `#[derive(FromPyObject)]` emits for the struct `ident`, read as
/// `how`; `types` are the rendered types of a tuple struct's fields.
pub open spec fn from_py_object_text(ident: Seq<char>, how: Extraction, types: Seq<Seq<char>>) -> Seq<char> {
    match how {
        Extraction::Tuple(n) => impl_head(ident) + "let "@ + tuple_of(field_vars(n as nat), n as nat)
            + ": "@ + tuple_of(type_list(types), n as nat) + " = ob.extract()?;\nOk("@ + ident + "("@
            + field_vars(n as nat) + "))\n}\n}\n"@,
        Extraction::Unit => impl_head(ident) + "let _ = ob;\nOk("@ + ident + ")\n}\n}\n"@,
        Extraction::Unsupported => impl_head(ident)
            + "let _ = ob;\nunimplemented!(\"FromPyObject for a struct with named fields\")\n}\n}\n"@,
    }
}

fn field_vars_code(n: usize) -> (r: String)
    ensures
        r@ == field_vars(n as nat),
{
    let mut s = String::new();
    let mut i: usize = 0;
    while i < n
        invariant
            i <= n,
            s@ == field_vars(i as nat),
        decreases n - i,
    {
        if i > 0 {
            s = cat(s, ", ");
        }
        let v = cat(String::from_str("_f"), decimal_code(i).as_str());
        s = cat(s, v.as_str());
        i = i + 1;
    }
    s
}

fn type_list_code(ts: &Vec<String>) -> (r: String)
    ensures
        r@ == type_list(string_views(ts@)),
{
    let mut s = String::new();
    let mut i: usize = 0;
    while i < ts.len()
        invariant
            i <= ts@.len(),
            s@ == type_list(string_views(ts@).take(i as int)),
        decreases ts@.len() - i,
    {
        proof {
            let all = string_views(ts@);
            let next = all.take(i + 1);
            assert(next.drop_last() =~= all.take(i as int));
            assert(next.last() == ts@[i as int]@);
            if i == 0 {
                assert(next[0] == ts@[0]@);
            }
        }
        if i > 0 {
            s = cat(s, ", ");
        }
        s = cat(s, ts[i].as_str());
        i = i + 1;
    }
    assert(string_views(ts@).take(ts@.len() as int) =~= string_views(ts@));
    s
}

fn tuple_of_code(items: &str, n: usize) -> (r: String)
    ensures
        r@ == tuple_of(items@, n as nat),
{
    let s = cat(String::from_str("("), items);
    if n == 1 {
        cat(s, ",)")
    } else {
        cat(s, ")")
    }
}

/// The `FromPyObject` impl that `#[derive(FromPyObject)]` emits for the item `ident` of
/// the given shape, whose fields, for a tuple struct, have the rendered types
/// `field_types`; or the reason the derive refuses the item.
pub fn from_py_object_code(ident: &str, shape: ItemShape, field_types: &Vec<String>) -> (r: Result<String, DeriveError>)
    requires
        shape matches ItemShape::TupleStruct(n) ==> field_types@.len() == n,
    ensures
        match from_py_object_plan_spec(shape) {
            Ok(how) => r matches Ok(t) && t@ == from_py_object_text(ident@, how, string_views(field_types@)),
            Err(e) => r == Err::<String, DeriveError>(e),
        },
{
    let how = match from_py_object_plan(shape) {
        Ok(h) => h,
        Err(e) => {
            return Err(e);
        },
    };
    let head = cat(
        cat(String::from_str("impl<'py> ::pyo3::FromPyObject<'py> for "), ident),
        " {\nfn extract_bound(ob: &::pyo3::Bound<'py, ::pyo3::types::PyAny>) -> ::pyo3::PyResult<Self> {\n",
    );
    match how {
        Extraction::Tuple(n) => {
            let vars = field_vars_code(n);
            let pat = tuple_of_code(vars.as_str(), n);
            let tys = type_list_code(field_types);
            let ty = tuple_of_code(tys.as_str(), n);
            let s = cat(cat(head, "let "), pat.as_str());
            let s = cat(cat(s, ": "), ty.as_str());
            let s = cat(cat(cat(s, " = ob.extract()?;\nOk("), ident), "(");
            Ok(cat(cat(s, vars.as_str()), "))\n}\n}\n"))
        },
        Extraction::Unit => Ok(cat(cat(cat(head, "let _ = ob;\nOk("), ident), ")\n}\n}\n")),
        Extraction::Unsupported => Ok(
            cat(head, "let _ = ob;\nunimplemented!(\"FromPyObject for a struct with named fields\")\n}\n}\n"),
        ),
    }
}

// ─── #[pymethods]: static and class methods ─────────────────────────────────

/// How a method's wrapper hands the Rust value `__result` to Python, for a method that
/// returns no `PyResult`.
pub open spec fn plain_return_text(c: Conversion) -> Seq<char> {
    match c {
        Conversion::NoneValue => "Ok(_vm.ctx.none())"@,
        Conversion::IntoPyObject => "::pyo3::IntoPyObject::into_pyobject(__result, __py).map(|b| b.into_any().unbind().into_object()).map_err(|e| ::pyo3::err::into_vm_err(e.into()))"@,
        Conversion::ToPyObject => "Ok(::rustpython_vm::convert::ToPyObject::to_pyobject(__result, _vm))"@,
        Conversion::IntoObject => "Ok(::rustpython_vm::convert::IntoObject::into_object(__result))"@,
        Conversion::StrToString => "Ok(::rustpython_vm::convert::ToPyObject::to_pyobject(__result.to_string(), _vm))"@,
        Conversion::Passthrough => "__result"@,
    }
}

/// How a method's wrapper hands on the `PyResult` in `__result`: the value converted as
/// `c`, and, unless the result is already RustPython's (`rp`), the pyo3 error turned into
/// a Python exception.
pub open spec fn result_return_text(c: Conversion, rp: bool) -> Seq<char> {
    let value = match c {
        Conversion::NoneValue => "__result.map(|_| _vm.ctx.none())"@,
        Conversion::IntoPyObject => if rp {
            "__result.and_then(|v| ::pyo3::IntoPyObject::into_pyobject(v, __py).map(|b| b.into_any().unbind().into_object()).map_err(|e| ::pyo3::err::into_vm_err(e.into())))"@
        } else {
            "__result.and_then(|v| ::pyo3::IntoPyObject::into_pyobject(v, __py).map(|b| b.into_any().unbind().into_object()))"@
        },
        Conversion::ToPyObject => "__result.map(|v| ::rustpython_vm::convert::ToPyObject::to_pyobject(v, _vm))"@,
        Conversion::IntoObject => "__result.map(|v| ::rustpython_vm::convert::IntoObject::into_object(v))"@,
        Conversion::StrToString => "__result.map(|v| ::rustpython_vm::convert::ToPyObject::to_pyobject(v.to_string(), _vm))"@,
        Conversion::Passthrough => "__result"@,
    };
    if rp {
        value
    } else {
        value + ".map_err(|e: ::pyo3::PyErr| ::pyo3::err::into_vm_err(e))"@
    }
}

fn plain_return_code(c: Conversion) -> (r: &'static str)
    ensures
        r@ == plain_return_text(c),
{
    match c {
        Conversion::NoneValue => "Ok(_vm.ctx.none())",
        Conversion::IntoPyObject => "::pyo3::IntoPyObject::into_pyobject(__result, __py).map(|b| b.into_any().unbind().into_object()).map_err(|e| ::pyo3::err::into_vm_err(e.into()))",
        Conversion::ToPyObject => "Ok(::rustpython_vm::convert::ToPyObject::to_pyobject(__result, _vm))",
        Conversion::IntoObject => "Ok(::rustpython_vm::convert::IntoObject::into_object(__result))",
        Conversion::StrToString => "Ok(::rustpython_vm::convert::ToPyObject::to_pyobject(__result.to_string(), _vm))",
        Conversion::Passthrough => "__result",
    }
}

fn result_return_code(c: Conversion, rp: bool) -> (r: String)
    ensures
        r@ == result_return_text(c, rp),
{
    let value = match c {
        Conversion::NoneValue => "__result.map(|_| _vm.ctx.none())",
        Conversion::IntoPyObject => if rp {
            "__result.and_then(|v| ::pyo3::IntoPyObject::into_pyobject(v, __py).map(|b| b.into_any().unbind().into_object()).map_err(|e| ::pyo3::err::into_vm_err(e.into())))"
        } else {
            "__result.and_then(|v| ::pyo3::IntoPyObject::into_pyobject(v, __py).map(|b| b.into_any().unbind().into_object()))"
        },
        Conversion::ToPyObject => "__result.map(|v| ::rustpython_vm::convert::ToPyObject::to_pyobject(v, _vm))",
        Conversion::IntoObject => "__result.map(|v| ::rustpython_vm::convert::IntoObject::into_object(v))",
        Conversion::StrToString => "__result.map(|v| ::rustpython_vm::convert::ToPyObject::to_pyobject(v.to_string(), _vm))",
        Conversion::Passthrough => "__result",
    };
    if rp {
        String::from_str(value)
    } else {
        cat(String::from_str(value), ".map_err(|e: ::pyo3::PyErr| ::pyo3::err::into_vm_err(e))")
    }
}

/// The code with which a method's wrapper returns, for the rendered return type `ret`
/// (`None` where the method declares none). For a pyo3 `PyResult` the value type is
/// rendered again by the token renderer, whose spacing between tokens no clause states:
/// the code is one of the stated conversions, and exactly the one for the value type
/// where that type is a plain identifier or `()`, which every renderer gives back
/// unchanged. For any other return type the code is stated exactly.
pub fn method_return_code(ret: Option<&str>) -> (r: String)
    requires
        angles_ordered(ret_text(opt_str(ret))),
    ensures
        !returns_pyo3_result_spec(opt_str(ret)) ==> r@ == plain_return_text(plain_conversion(opt_str(ret))),
        returns_pyo3_result_spec(opt_str(ret)) ==> exists|c: Conversion| r@ == result_return_text(
            c,
            contains(ret_text(opt_str(ret)), "rustpython_vm::PyResult"@),
        ),
        returns_pyo3_result_spec(opt_str(ret)) ==> match pyresult_inner_text(ret_text(opt_str(ret))) {
            Some(t) => (plain_ident(t) || t == "()"@) ==> r@ == result_return_text(
                result_conversion(Some(t)),
                contains(ret_text(opt_str(ret)), "rustpython_vm::PyResult"@),
            ),
            None => true,
        },
        returns_pyo3_result_spec(opt_str(ret)) ==> match pyresult_inner_text(ret_text(opt_str(ret))) {
            Some(t) => type_like(t) && has_ascii_letter(t) ==> exists|c: Conversion| #![auto]
                c != Conversion::NoneValue && r@ == result_return_text(
                    c,
                    contains(ret_text(opt_str(ret)), "rustpython_vm::PyResult"@),
                ),
            None => true,
        },
{
    if returns_pyo3_result(ret) {
        let plan = result_return_plan(ret);
        let r = result_return_code(plan.conversion, plan.rustpython_result);
        assert(r@ == result_return_text(plan.conversion, plan.rustpython_result));
        r
    } else {
        String::from_str(plain_return_code(plain_return_conversion(ret)))
    }
}

/// What every static or class method wrapper runs before it takes the parameters.
pub open spec fn method_preamble() -> Seq<char> {
    ") -> ::rustpython_vm::PyResult<::rustpython_vm::PyObjectRef> {\nlet _vm = vm;\nlet __vm = _vm;\nlet mut __args = __args;\nlet __py = ::pyo3::Python::from_vm(_vm);\nlet py = __py;\nlet vm = _vm;\n"@
}

/// The wrapper that `#[pymethods]` registers for the static method `f` (or, for
/// `class`, the class method `f`): it takes the parameters `ps` from the call's
/// arguments, calls `Self::f`, and returns with the code `ret`.
pub open spec fn static_method_text(f: Seq<char>, g: Seq<char>, class: bool, ps: Seq<ParamModel>, ret: Seq<char>) -> Seq<char> {
    let head = if class {
        "#[pyclassmethod(name = \""@ + f + "\")]\nfn _pyo3_classmethod_"@ + f + g + "(__cls: &::rustpython_vm::Py<::rustpython_vm::builtins::PyType>, __args: ::rustpython_vm::function::FuncArgs, vm: &::rustpython_vm::VirtualMachine"@
    } else {
        "#[pystaticmethod(name = \""@ + f + "\")]\nfn _pyo3_static_"@ + f + g + "(__args: ::rustpython_vm::function::FuncArgs, vm: &::rustpython_vm::VirtualMachine"@
    };
    head + method_preamble() + extractions(ps, true) + "let __result = Self::"@ + f + "("@ + call_args(ps, true)
        + ");\n"@ + ret + "\n}\n"@
}

/// The wrapper that `#[pymethods]` registers for the static method `fn_name` (or, for
/// `class`, the class method), with parameters `params` and the return code `ret_code`
/// that `method_return_code` gives for its return type; `generics` is the text of the
/// method's generics, which the wrapper takes too.
pub fn static_method_code(fn_name: &str, generics: &str, class: bool, params: &Vec<ParamSig>, ret_code: &str) -> (r: String)
    ensures
        r@ == static_method_text(fn_name@, generics@, class, param_views(params@), ret_code@),
{
    let head = if class {
        let h = cat(cat(String::from_str("#[pyclassmethod(name = \""), fn_name), "\")]\nfn _pyo3_classmethod_");
        cat(cat(cat(h, fn_name), generics), "(__cls: &::rustpython_vm::Py<::rustpython_vm::builtins::PyType>, __args: ::rustpython_vm::function::FuncArgs, vm: &::rustpython_vm::VirtualMachine")
    } else {
        let h = cat(cat(String::from_str("#[pystaticmethod(name = \""), fn_name), "\")]\nfn _pyo3_static_");
        cat(cat(cat(h, fn_name), generics), "(__args: ::rustpython_vm::function::FuncArgs, vm: &::rustpython_vm::VirtualMachine")
    };
    let (stmts, args) = params_code(params, true);
    let s = cat(head, ") -> ::rustpython_vm::PyResult<::rustpython_vm::PyObjectRef> {\nlet _vm = vm;\nlet __vm = _vm;\nlet mut __args = __args;\nlet __py = ::pyo3::Python::from_vm(_vm);\nlet py = __py;\nlet vm = _vm;\n");
    let s = cat(s, stmts.as_str());
    let s = cat(cat(s, "let __result = Self::"), fn_name);
    let s = cat(cat(cat(s, "("), args.as_str()), ");\n");
    cat(cat(s, ret_code), "\n}\n")
}

// ─── #[new] ──────────────────────────────────────────────────────────────────

/// An argument of a `#[new]` with a `#[pyo3(signature = ...)]`: the parameter's name and
/// the text of its default, if the signature gives one.
pub struct NewArg {
    pub name: String,
    pub default: Option<String>,
}

/// The mathematical content of `NewArg`.
pub struct NewArgModel {
    pub name: Seq<char>,
    pub default: Option<Seq<char>>,
}

impl View for NewArg {
    type V = NewArgModel;

    open spec fn view(&self) -> NewArgModel {
        NewArgModel { name: self.name@, default: opt_view(self.default) }
    }
}

pub open spec fn new_arg_views(a: Seq<NewArg>) -> Seq<NewArgModel> {
    Seq::new(a.len(), |i: int| a[i]@)
}

/// How the argument `a` is bound from the call: required, `None` by default, or its
/// default value converted to a Python object.
pub open spec fn new_arg_binding_text(a: NewArgModel) -> Seq<char> {
    "let "@ + a.name + " = args.take_positional_keyword(\""@ + a.name + "\")"@ + match a.default {
        None => ".ok_or(::rustpython_vm::function::ArgumentError::TooFewArgs)?;\n"@,
        Some(d) => if compact(d) == "None"@ {
            ".unwrap_or_else(|| vm.ctx.none());\n"@
        } else {
            ".unwrap_or_else(|| ::rustpython_vm::convert::ToPyObject::to_pyobject("@ + d + ", vm));\n"@
        },
    }
}

/// The number of arguments without a default.
pub open spec fn required_args(a: Seq<NewArgModel>) -> nat
    decreases a.len(),
{
    if a.len() == 0 {
        0
    } else {
        required_args(a.drop_last()) + if a.last().default is None {
            1nat
        } else {
            0nat
        }
    }
}

/// The fields, the bindings, the field list and the re-packed arguments of the helper
/// that binds a signature's arguments.
pub open spec fn new_arg_fields(a: Seq<NewArgModel>) -> Seq<char>
    decreases a.len(),
{
    if a.len() == 0 {
        Seq::empty()
    } else {
        new_arg_fields(a.drop_last()) + a.last().name + ": ::rustpython_vm::PyObjectRef,\n"@
    }
}

pub open spec fn new_arg_bindings_text(a: Seq<NewArgModel>) -> Seq<char>
    decreases a.len(),
{
    if a.len() == 0 {
        Seq::empty()
    } else {
        new_arg_bindings_text(a.drop_last()) + new_arg_binding_text(a.last())
    }
}

pub open spec fn new_arg_names(a: Seq<NewArgModel>, prefix: Seq<char>) -> Seq<char>
    decreases a.len(),
{
    if a.len() == 0 {
        Seq::empty()
    } else if a.len() == 1 {
        prefix + a[0].name
    } else {
        new_arg_names(a.drop_last(), prefix) + ", "@ + prefix + a.last().name
    }
}

/// The call of the renamed constructor `_pyo3_inner_<f>`, with its parameters `ps` taken
/// from the call's arguments, or first bound by the signature `sig`.
pub open spec fn new_call_text(f: Seq<char>, ps: Seq<ParamModel>, sig: Option<Seq<NewArgModel>>) -> Seq<char> {
    let call = extractions(ps, true) + "Self::_pyo3_inner_"@ + f + "("@ + call_args(ps, true) + ")\n}"@;
    match sig {
        None => "{\nlet mut __args = _args;\n"@ + call,
        Some(a) => "{\n#[allow(non_camel_case_types, dead_code)]\nstruct _Pyo3NewArgs_"@ + f + " {\n"@ + new_arg_fields(a) + "}\nimpl ::rustpython_vm::function::FromArgs for _Pyo3NewArgs_"@ + f + " {\nfn arity() -> ::std::ops::RangeInclusive<usize> {\n"@
            + decimal(required_args(a)) + "..="@ + decimal(a.len()) + "\n}\nfn from_args(vm: &::rustpython_vm::VirtualMachine, args: &mut ::rustpython_vm::function::FuncArgs) -> ::core::result::Result<Self, ::rustpython_vm::function::ArgumentError> {\n"@ + new_arg_bindings_text(a)
            + "Ok(Self { "@ + new_arg_names(a, Seq::empty()) + " })\n}\n}\nlet __new_args: _Pyo3NewArgs_"@ + f + " = _args.bind(_vm)?;\nlet mut __args = ::rustpython_vm::function::FuncArgs::from(vec!["@
            + new_arg_names(a, "__new_args."@) + "]);\n"@ + call,
    }
}

/// The `Constructor` impl that `#[pymethods]` emits for the type `t` from its `#[new]`
/// method `f`, renamed `_pyo3_inner_<f>`: `returns_result` says whether `f` returns a
/// `PyResult`, and `with_base` whether it returns `(Self, Base)`, in which case the
/// object is built from the base's payload by `slot_new`.
pub open spec fn constructor_text(
    t: Seq<char>,
    f: Seq<char>,
    ps: Seq<ParamModel>,
    returns_result: bool,
    with_base: bool,
    sig: Option<Seq<NewArgModel>>,
) -> Seq<char> {
    let call = new_call_text(f, ps, sig);
    let body = if !returns_result && !with_base {
        "Ok(("@ + call + "))"@
    } else if returns_result && !with_base {
        "("@ + call + ")"@ + ".map_err(|e: ::pyo3::PyErr| ::pyo3::err::into_vm_err(e))"@
    } else if !returns_result {
        "Ok(("@ + call + ").0)"@
    } else {
        "("@ + call + ").map(|t| t.0)"@ + ".map_err(|e: ::pyo3::PyErr| ::pyo3::err::into_vm_err(e))"@
    };
    let slot_new = if with_base {
        "fn slot_new(cls: ::rustpython_vm::builtins::PyTypeRef, _args: Self::Args, vm: &::rustpython_vm::VirtualMachine) -> ::rustpython_vm::PyResult {\nlet _vm = vm;\nlet __vm = _vm;\nlet (_, base_payload): (Self, <Self as ::pyo3::Pyo3BasePayload>::BasePayload) = "@ + call + (if returns_result {
            ".map_err(|e: ::pyo3::PyErr| ::pyo3::err::into_vm_err(e))"@ + "?"@
        } else {
            Seq::empty()
        }) + ";\nlet dict = if cls.slots.flags.has_feature(::rustpython_vm::types::PyTypeFlags::HAS_DICT) { Some(vm.ctx.new_dict()) } else { None };\nOk(::rustpython_vm::PyRef::new_ref(base_payload, cls, dict).into())\n}\n"@
    } else {
        Seq::empty()
    };
    "impl ::rustpython_vm::types::Constructor for "@ + t + " {\ntype Args = ::rustpython_vm::function::FuncArgs;\nfn py_new(_cls: &::rustpython_vm::Py<::rustpython_vm::builtins::PyType>, _args: Self::Args, vm: &::rustpython_vm::VirtualMachine) -> ::rustpython_vm::PyResult<Self> {\nlet _vm = vm;\nlet __vm = _vm;\n"@ + body + "\n}\n"@ + slot_new + "}\n"@
}

fn new_arg_binding_code(a: &NewArg) -> (r: String)
    ensures
        r@ == new_arg_binding_text(a@),
{
    let s = cat(cat(cat(cat(String::from_str("let "), a.name.as_str()), " = args.take_positional_keyword(\""), a.name.as_str()), "\")");
    match &a.default {
        None => cat(s, ".ok_or(::rustpython_vm::function::ArgumentError::TooFewArgs)?;\n"),
        Some(d) => {
            let c = compact_type(d.as_str());
            if eq_exec(&c, "None") {
                cat(s, ".unwrap_or_else(|| vm.ctx.none());\n")
            } else {
                cat(cat(cat(s, ".unwrap_or_else(|| ::rustpython_vm::convert::ToPyObject::to_pyobject("), d.as_str()), ", vm));\n")
            }
        },
    }
}

/// The pieces of the signature helper for the arguments `a`, and the number that are
/// required.
fn new_args_code(a: &Vec<NewArg>) -> (r: (String, String, String, String, usize))
    ensures
        r.0@ == new_arg_fields(new_arg_views(a@)),
        r.1@ == new_arg_bindings_text(new_arg_views(a@)),
        r.2@ == new_arg_names(new_arg_views(a@), Seq::empty()),
        r.3@ == new_arg_names(new_arg_views(a@), "__new_args."@),
        r.4 as nat == required_args(new_arg_views(a@)),
{
    let mut fields = String::new();
    let mut binds = String::new();
    let mut names = String::new();
    let mut refs = String::new();
    let mut req: usize = 0;
    let mut i: usize = 0;
    while i < a.len()
        invariant
            i <= a@.len(),
            fields@ == new_arg_fields(new_arg_views(a@).take(i as int)),
            binds@ == new_arg_bindings_text(new_arg_views(a@).take(i as int)),
            names@ == new_arg_names(new_arg_views(a@).take(i as int), Seq::empty()),
            refs@ == new_arg_names(new_arg_views(a@).take(i as int), "__new_args."@),
            req as nat == required_args(new_arg_views(a@).take(i as int)),
            req <= i,
        decreases a@.len() - i,
    {
        let x = &a[i];
        proof {
            let all = new_arg_views(a@);
            let next = all.take(i + 1);
            assert(next.drop_last() =~= all.take(i as int));
            assert(next.last() == a@[i as int]@);
            if i == 0 {
                assert(next[0] == a@[0]@);
                assert(Seq::<char>::empty() + a@[0]@.name =~= a@[0]@.name);
            }
        }
        fields = cat(cat(fields, x.name.as_str()), ": ::rustpython_vm::PyObjectRef,\n");
        binds = cat(binds, new_arg_binding_code(x).as_str());
        if i > 0 {
            names = cat(names, ", ");
            refs = cat(refs, ", ");
        }
        names = cat(names, x.name.as_str());
        refs = cat(cat(refs, "__new_args."), x.name.as_str());
        if x.default.is_none() {
            req = req + 1;
        }
        i = i + 1;
    }
    assert(new_arg_views(a@).take(a@.len() as int) =~= new_arg_views(a@));
    (fields, binds, names, refs, req)
}

/// The arguments that a `#[pyo3(signature = ...)]` with the defaults `ds` gives a
/// `#[new]` with the parameters `ps`: each parameter but the `Python` token, in order,
/// with the next default of the signature, and none once the signature lists no more.
pub open spec fn new_args_spec(ps: Seq<ParamModel>, ds: Seq<Option<Seq<char>>>) -> Seq<NewArgModel>
    decreases ps.len(),
{
    if ps.len() == 0 {
        Seq::empty()
    } else if contains(compact(ps[0].ty), "Python"@) {
        new_args_spec(ps.drop_first(), ds)
    } else if ds.len() == 0 {
        seq![NewArgModel { name: ps[0].name, default: None }] + new_args_spec(ps.drop_first(), ds)
    } else {
        seq![NewArgModel { name: ps[0].name, default: ds[0] }] + new_args_spec(ps.drop_first(), ds.drop_first())
    }
}

pub open spec fn opt_string_views(v: Seq<Option<String>>) -> Seq<Option<Seq<char>>> {
    Seq::new(v.len(), |i: int| opt_view(v[i]))
}

/// Pairs the parameters of a `#[new]` with the defaults that its
/// `#[pyo3(signature = ...)]` lists, in order (see `new_args_spec`).
pub fn new_args(params: &Vec<ParamSig>, defaults: &Vec<Option<String>>) -> (r: Vec<NewArg>)
    ensures
        new_arg_views(r@) == new_args_spec(param_views(params@), opt_string_views(defaults@)),
{
    let ghost ps = param_views(params@);
    let ghost ds = opt_string_views(defaults@);
    let mut out: Vec<NewArg> = Vec::new();
    let mut i: usize = 0;
    let mut j: usize = 0;
    assert(ps.skip(0) =~= ps);
    assert(ds.skip(0) =~= ds);
    while i < params.len()
        invariant
            i <= params@.len(),
            j <= defaults@.len(),
            ps == param_views(params@),
            ds == opt_string_views(defaults@),
            new_arg_views(out@) + new_args_spec(ps.skip(i as int), ds.skip(j as int)) == new_args_spec(ps, ds),
        decreases params@.len() - i,
    {
        let p = &params[i];
        let ghost rest = ps.skip(i as int);
        let ghost dr = ds.skip(j as int);
        assert(rest[0] == params@[i as int]@);
        assert(rest.drop_first() =~= ps.skip(i + 1));
        if contains_exec(&compact_type(p.ty.as_str()), "Python") {
            i = i + 1;
        } else {
            let d: Option<String> = if j < defaults.len() {
                assert(dr[0] == opt_view(defaults@[j as int]));
                assert(dr.drop_first() =~= ds.skip(j + 1));
                defaults[j].clone()
            } else {
                None
            };
            let ghost before = out@;
            out.push(NewArg { name: p.name.clone(), default: d });
            proof {
                assert(new_arg_views(out@) =~= new_arg_views(before).push(out@[before.len() as int]@));
                let head = seq![out@[before.len() as int]@];
                assert(new_arg_views(out@) + new_args_spec(ps.skip(i + 1), if j < defaults@.len() {
                    ds.skip(j + 1)
                } else {
                    ds.skip(j as int)
                }) =~= new_arg_views(before) + (head + new_args_spec(rest.drop_first(), if j < defaults@.len() {
                    dr.drop_first()
                } else {
                    dr
                })));
            }
            if j < defaults.len() {
                j = j + 1;
            }
            i = i + 1;
        }
    }
    assert(ps.skip(params@.len() as int) =~= Seq::<ParamModel>::empty());
    assert(new_arg_views(out@) + Seq::<NewArgModel>::empty() =~= new_arg_views(out@));
    out
}

pub open spec fn opt_new_args(sig: Option<&Vec<NewArg>>) -> Option<Seq<NewArgModel>> {
    match sig {
        Some(a) => Some(new_arg_views(a@)),
        None => None,
    }
}

fn new_call_code(f: &str, ps: &Vec<ParamSig>, sig: Option<&Vec<NewArg>>) -> (r: String)
    ensures
        r@ == new_call_text(f@, param_views(ps@), opt_new_args(sig)),
{
    let (stmts, args) = params_code(ps, true);
    let call = cat(cat(cat(cat(cat(stmts, "Self::_pyo3_inner_"), f), "("), args.as_str()), ")\n}");
    match sig {
        None => cat(String::from_str("{\nlet mut __args = _args;\n"), call.as_str()),
        Some(a) => {
            let (fields, binds, names, refs, req) = new_args_code(a);
            let s = cat(cat(cat(cat(cat(String::from_str("{\n#[allow(non_camel_case_types, dead_code)]\nstruct _Pyo3NewArgs_"), f), " {\n"), fields.as_str()), "}\nimpl ::rustpython_vm::function::FromArgs for _Pyo3NewArgs_"), f);
            let s = cat(cat(cat(cat(s, " {\nfn arity() -> ::std::ops::RangeInclusive<usize> {\n"), decimal_code(req).as_str()), "..="), decimal_code(a.len()).as_str());
            let s = cat(cat(cat(cat(s, "\n}\nfn from_args(vm: &::rustpython_vm::VirtualMachine, args: &mut ::rustpython_vm::function::FuncArgs) -> ::core::result::Result<Self, ::rustpython_vm::function::ArgumentError> {\n"), binds.as_str()), "Ok(Self { "), names.as_str());
            let s = cat(cat(cat(cat(s, " })\n}\n}\nlet __new_args: _Pyo3NewArgs_"), f), " = _args.bind(_vm)?;\nlet mut __args = ::rustpython_vm::function::FuncArgs::from(vec!["), refs.as_str());
            cat(cat(s, "]);\n"), call.as_str())
        },
    }
}

/// The `Constructor` impl that `#[pymethods]` emits for the type `self_ty` from its
/// `#[new]` method `fn_name` with parameters `params` and rendered return type `ret`
/// (planned by `constructor_plan`), bound first by its `#[pyo3(signature = ...)]` where
/// it has one (`sig`, one entry for each parameter but the `Python` token). The method
/// itself is emitted beside it under the name `_pyo3_inner_<fn_name>`.
pub fn constructor_code(
    self_ty: &str,
    fn_name: &str,
    params: &Vec<ParamSig>,
    ret: Option<&str>,
    base_is_path: bool,
    sig: Option<&Vec<NewArg>>,
) -> (r: String)
    requires
        mentions_self_pair(ret_text(opt_str(ret))) ==> base_slices_defined(ret_text(opt_str(ret))),
    ensures
        r@ == constructor_text(
            self_ty@,
            fn_name@,
            param_views(params@),
            contains(ret_text(opt_str(ret)), "PyResult"@),
            mentions_self_pair(ret_text(opt_str(ret))) && base_type_spec(ret_text(opt_str(ret)), base_is_path) is Some,
            opt_new_args(sig),
        ),
{
    let plan = constructor_plan_given(ret, base_is_path);
    let call = new_call_code(fn_name, params, sig);
    let rr = plan.returns_result;
    let wb = plan.base.is_some();
    let body = if !rr && !wb {
        cat(cat(String::from_str("Ok(("), call.as_str()), "))")
    } else if rr && !wb {
        cat(cat(cat(String::from_str("("), call.as_str()), ")"), ".map_err(|e: ::pyo3::PyErr| ::pyo3::err::into_vm_err(e))")
    } else if !rr {
        cat(cat(String::from_str("Ok(("), call.as_str()), ").0)")
    } else {
        cat(cat(cat(String::from_str("("), call.as_str()), ").map(|t| t.0)"), ".map_err(|e: ::pyo3::PyErr| ::pyo3::err::into_vm_err(e))")
    };
    let slot_new = if wb {
        let s = cat(String::from_str("fn slot_new(cls: ::rustpython_vm::builtins::PyTypeRef, _args: Self::Args, vm: &::rustpython_vm::VirtualMachine) -> ::rustpython_vm::PyResult {\nlet _vm = vm;\nlet __vm = _vm;\nlet (_, base_payload): (Self, <Self as ::pyo3::Pyo3BasePayload>::BasePayload) = "), call.as_str());
        let s = if rr {
            cat(cat(s, ".map_err(|e: ::pyo3::PyErr| ::pyo3::err::into_vm_err(e))"), "?")
        } else {
            s
        };
        cat(s, ";\nlet dict = if cls.slots.flags.has_feature(::rustpython_vm::types::PyTypeFlags::HAS_DICT) { Some(vm.ctx.new_dict()) } else { None };\nOk(::rustpython_vm::PyRef::new_ref(base_payload, cls, dict).into())\n}\n")
    } else {
        String::new()
    };
    let s = cat(cat(cat(cat(String::from_str("impl ::rustpython_vm::types::Constructor for "), self_ty), " {\ntype Args = ::rustpython_vm::function::FuncArgs;\nfn py_new(_cls: &::rustpython_vm::Py<::rustpython_vm::builtins::PyType>, _args: Self::Args, vm: &::rustpython_vm::VirtualMachine) -> ::rustpython_vm::PyResult<Self> {\nlet _vm = vm;\nlet __vm = _vm;\n"), body.as_str()), "\n}\n");
    cat(cat(s, slot_new.as_str()), "}\n")
}

// ─── #[pymethods]: wrappers of plain methods ────────────────────────────────

/// The receiver of a method.
#[derive(PartialEq, Eq, Structural, Clone, Copy)]
pub enum Receiver {
    /// An associated function.
    Absent,
    /// `&self`.
    Shared,
    /// `&mut self`.
    Mutable,
}

/// A method of a `#[pymethods]` block, as the macro reads it: its name, the rendered
/// attributes it keeps, its receiver and its typed parameters (name and rendered type).
pub struct MethodSig {
    pub name: String,
    pub attrs: Vec<String>,
    pub receiver: Receiver,
    pub params: Vec<ParamSig>,
    /// The rendered generics, such as `<'a>`; empty where there are none.
    pub generics: String,
    /// The rendered inputs, receiver included, without the parentheses.
    pub inputs: String,
    /// The rendered return type with its arrow (`-> T`); empty where there is none.
    pub output: String,
}

/// The mathematical content of `MethodSig`.
pub struct MethodModel {
    pub name: Seq<char>,
    pub attrs: Seq<Seq<char>>,
    pub receiver: Receiver,
    pub params: Seq<ParamModel>,
    pub generics: Seq<char>,
    pub inputs: Seq<char>,
    pub output: Seq<char>,
}

impl View for MethodSig {
    type V = MethodModel;

    open spec fn view(&self) -> MethodModel {
        MethodModel {
            name: self.name@,
            attrs: string_views(self.attrs@),
            receiver: self.receiver,
            params: param_views(self.params@),
            generics: self.generics@,
            inputs: self.inputs@,
            output: self.output@,
        }
    }
}

/// The name under which a wrapper takes the object for parameter `n`.
pub open spec fn raw_name(n: Seq<char>) -> Seq<char> {
    "__raw_"@ + n
}

/// The wrapper's own parameter for the method's parameter `n`, planned as `k`; empty
/// where the wrapper needs none.
pub open spec fn wrapper_param_text(n: Seq<char>, k: WrapperParamKind) -> Seq<char> {
    match k {
        WrapperParamKind::Python | WrapperParamKind::Vm => Seq::empty(),
        WrapperParamKind::PyRefMut => "__slf: ::rustpython_vm::PyRef<Self>"@,
        WrapperParamKind::PyRef => n + ": ::rustpython_vm::PyRef<Self>"@,
        _ => raw_name(n) + ": ::rustpython_vm::PyObjectRef"@,
    }
}

/// The statement that makes parameter `n`, planned as `k`, from the wrapper's own
/// parameter; `t` is the type the methods belong to.
pub open spec fn wrapper_stmt_text(n: Seq<char>, k: WrapperParamKind, t: Seq<char>) -> Seq<char> {
    match k {
        WrapperParamKind::Python | WrapperParamKind::Vm | WrapperParamKind::PyRef => Seq::empty(),
        WrapperParamKind::SelfRef => "let __bound_self = ::pyo3::Bound::from_object(__py, "@ + raw_name(n) + ");\nlet "@ + n + ": &"@ + t + " = match <&"@ + t
            + " as ::pyo3::FromPyObject>::extract_bound(&__bound_self) { Ok(v) => v, Err(e) => return Err(::pyo3::err::into_vm_err(e)) };\n"@,
        WrapperParamKind::Bound(_) => "let "@ + n + " = ::pyo3::Bound::from_object(__py, "@ + raw_name(n) + ");\n"@,
        WrapperParamKind::PyRefMut => "let "@ + n + " = unsafe { ::rustpython_vm::PyRefMut::from_pyref_unchecked(__slf) };\n"@,
        WrapperParamKind::OptionalRef(o) => "let "@ + n + " = if _vm.is_none(&"@ + raw_name(n) + ") { None } else { Some("@ + (if o == OptionalBound::Py {
            "::pyo3::Py::from("@
        } else {
            "::pyo3::Bound::from_object(__py, "@
        }) + raw_name(n) + ")) };\n"@,
        WrapperParamKind::Optional(o) => match o {
            OptKind::Scalar(s) => "let "@ + n + ": Option<"@ + s + "> = if _vm.is_none(&"@ + raw_name(n) + ") { None } else { "@ + raw_name(n)
                + ".try_into_value(_vm).ok() };\n"@,
            OptKind::OwnedString => "let "@ + n + ": Option<String> = if _vm.is_none(&"@ + raw_name(n) + ") { None } else { let __s: ::rustpython_vm::builtins::PyStrRef = "@ + raw_name(n)
                + ".try_into_value(_vm)?; Some(__s.to_string()) };\n"@,
            OptKind::Extract(s) => "let "@ + n + ": Option<"@ + s + "> = if _vm.is_none(&"@ + raw_name(n) + ") { None } else { match <"@ + s
                + " as ::pyo3::FromPyObject>::extract_bound(&::pyo3::Bound::from_object(::pyo3::Python::from_vm(_vm), "@ + raw_name(n) + ".clone())) { Ok(v) => Some(v), Err(e) => return Err(::pyo3::err::into_vm_err(e)) } };\n"@,
            _ => Seq::empty(),
        },
        WrapperParamKind::PathBuf => "let "@ + n + ": ::std::path::PathBuf = { let __s: ::rustpython_vm::builtins::PyStrRef = <::rustpython_vm::builtins::PyStrRef as ::rustpython_vm::convert::TryFromObject>::try_from_object(_vm, "@ + raw_name(n) + ")?; ::std::path::PathBuf::from(__s.to_string()) };\n"@,
        WrapperParamKind::Extract(s) => "let "@ + n + ": "@ + s + " = match <"@ + s + " as ::pyo3::FromPyObject>::extract_bound(&::pyo3::Bound::from_object(__py, "@ + raw_name(n)
            + ".clone())) { Ok(v) => v, Err(e) => return Err(::pyo3::err::into_vm_err(e)) };\n"@,
    }
}

/// The argument passed to the method for parameter `n`, planned as `k`.
pub open spec fn wrapper_call_text(n: Seq<char>, k: WrapperParamKind) -> Seq<char> {
    match k {
        WrapperParamKind::Python => "__py"@,
        WrapperParamKind::Vm => "_vm"@,
        WrapperParamKind::Bound(r) => if r {
            "&"@ + n
        } else {
            n
        },
        WrapperParamKind::OptionalRef(o) => if o == OptionalBound::AsRef {
            n + ".as_ref()"@
        } else {
            n
        },
        _ => n,
    }
}

pub open spec fn wparam_kind(p: ParamModel) -> WrapperParamKind {
    wrapper_param_spec(p.ty, true)
}

/// The wrapper's own parameters, each followed by a comma.
pub open spec fn wrapper_params_text(ps: Seq<ParamModel>) -> Seq<char>
    decreases ps.len(),
{
    if ps.len() == 0 {
        Seq::empty()
    } else {
        let p = ps.last();
        let w = wrapper_param_text(p.name, wparam_kind(p));
        wrapper_params_text(ps.drop_last()) + if w.len() == 0 {
            Seq::empty()
        } else {
            w + ", "@
        }
    }
}

pub open spec fn wrapper_stmts_text(ps: Seq<ParamModel>, t: Seq<char>) -> Seq<char>
    decreases ps.len(),
{
    if ps.len() == 0 {
        Seq::empty()
    } else {
        wrapper_stmts_text(ps.drop_last(), t) + wrapper_stmt_text(ps.last().name, wparam_kind(ps.last()), t)
    }
}

pub open spec fn wrapper_args_text(ps: Seq<ParamModel>) -> Seq<char>
    decreases ps.len(),
{
    if ps.len() == 0 {
        Seq::empty()
    } else if ps.len() == 1 {
        wrapper_call_text(ps[0].name, wparam_kind(ps[0]))
    } else {
        wrapper_args_text(ps.drop_last()) + ", "@ + wrapper_call_text(ps.last().name, wparam_kind(ps.last()))
    }
}

/// The texts, one to a line.
pub open spec fn lines_text(a: Seq<Seq<char>>) -> Seq<char>
    decreases a.len(),
{
    if a.len() == 0 {
        Seq::empty()
    } else {
        lines_text(a.drop_last()) + a.last() + "\n"@
    }
}

/// The wrapper that `#[pymethods]` registers, under the method's own name, for a method
/// of type `t` that needs one (see `method_needs_wrapper`); `ret` is the code with which
/// it returns (see `method_return_code`). The method itself stays beside it.
pub open spec fn method_wrapper_text(m: MethodModel, t: Seq<char>, ret: Seq<char>) -> Seq<char> {
    let f = m.name;
    let receiver = if m.receiver == Receiver::Mutable {
        "__slf: &::rustpython_vm::Py<Self>, "@
    } else {
        "&self, "@
    };
    let args = wrapper_args_text(m.params);
    let call = match m.receiver {
        Receiver::Mutable => "{ let mut self_ = ::pyo3::PyRefMut::from_vm_ref(__py, __slf.to_owned()); self_."@ + f + "("@ + args + ") }"@,
        Receiver::Shared => "self."@ + f + "("@ + args + ")"@,
        Receiver::Absent => "Self::"@ + f + "("@ + args + ")"@,
    };
    lines_text(m.attrs) + "#[pymethod(name = \""@ + f + "\")]\nfn __pyo3_wrap_"@ + f + m.generics + "("@ + receiver + wrapper_params_text(m.params) + "vm: &::rustpython_vm::VirtualMachine) -> ::rustpython_vm::PyResult<::rustpython_vm::PyObjectRef> {\nlet _vm = vm;\nlet __py = ::pyo3::Python::from_vm(_vm);\nlet py = __py;\nlet vm = _vm;\n"@
        + wrapper_stmts_text(m.params, t) + "let __result = "@ + call + ";\n"@ + ret + "\n}\n"@
}

fn raw_name_code(n: &str) -> (r: String)
    ensures
        r@ == raw_name(n@),
{
    cat(String::from_str("__raw_"), n)
}

fn wrapper_param_code(n: &str, k: &WrapperParam) -> (r: String)
    ensures
        r@ == wrapper_param_text(n@, k@),
{
    match k {
        WrapperParam::Python | WrapperParam::Vm => String::new(),
        WrapperParam::PyRefMut => String::from_str("__slf: ::rustpython_vm::PyRef<Self>"),
        WrapperParam::PyRef => cat(String::from_str(n), ": ::rustpython_vm::PyRef<Self>"),
        _ => cat(raw_name_code(n), ": ::rustpython_vm::PyObjectRef"),
    }
}

fn wrapper_stmt_code(n: &str, k: &WrapperParam, t: &str) -> (r: String)
    ensures
        r@ == wrapper_stmt_text(n@, k@, t@),
{
    let raw = raw_name_code(n);
    let raw = raw.as_str();
    let let_n = cat(String::from_str("let "), n);
    match k {
        WrapperParam::Python | WrapperParam::Vm | WrapperParam::PyRef => String::new(),
        WrapperParam::SelfRef => {
            let s = cat(cat(cat(cat(String::from_str("let __bound_self = ::pyo3::Bound::from_object(__py, "), raw), ");\nlet "), n), ": &");
            cat(cat(cat(cat(s, t), " = match <&"), t), " as ::pyo3::FromPyObject>::extract_bound(&__bound_self) { Ok(v) => v, Err(e) => return Err(::pyo3::err::into_vm_err(e)) };\n")
        },
        WrapperParam::Bound(_) => cat(cat(cat(let_n, " = ::pyo3::Bound::from_object(__py, "), raw), ");\n"),
        WrapperParam::PyRefMut => cat(let_n, " = unsafe { ::rustpython_vm::PyRefMut::from_pyref_unchecked(__slf) };\n"),
        WrapperParam::OptionalRef(o) => {
            let s = cat(cat(cat(let_n, " = if _vm.is_none(&"), raw), ") { None } else { Some(");
            let s = if *o == OptionalBound::Py {
                cat(s, "::pyo3::Py::from(")
            } else {
                cat(s, "::pyo3::Bound::from_object(__py, ")
            };
            cat(cat(s, raw), ")) };\n")
        },
        WrapperParam::Optional(o) => match o {
            OptPlan::Scalar(s) => {
                let x = cat(cat(cat(cat(let_n, ": Option<"), s.as_str()), "> = if _vm.is_none(&"), raw);
                cat(cat(cat(x, ") { None } else { "), raw), ".try_into_value(_vm).ok() };\n")
            },
            OptPlan::OwnedString => {
                let x = cat(cat(cat(let_n, ": Option<String> = if _vm.is_none(&"), raw), ") { None } else { let __s: ::rustpython_vm::builtins::PyStrRef = ");
                cat(cat(x, raw), ".try_into_value(_vm)?; Some(__s.to_string()) };\n")
            },
            OptPlan::Extract(s) => {
                let x = cat(cat(cat(cat(let_n, ": Option<"), s.as_str()), "> = if _vm.is_none(&"), raw);
                let x = cat(cat(cat(x, ") { None } else { match <"), s.as_str()), " as ::pyo3::FromPyObject>::extract_bound(&::pyo3::Bound::from_object(::pyo3::Python::from_vm(_vm), ");
                cat(cat(x, raw), ".clone())) { Ok(v) => Some(v), Err(e) => return Err(::pyo3::err::into_vm_err(e)) } };\n")
            },
            _ => String::new(),
        },
        WrapperParam::PathBuf => cat(cat(cat(let_n, ": ::std::path::PathBuf = { let __s: ::rustpython_vm::builtins::PyStrRef = <::rustpython_vm::builtins::PyStrRef as ::rustpython_vm::convert::TryFromObject>::try_from_object(_vm, "), raw), ")?; ::std::path::PathBuf::from(__s.to_string()) };\n"),
        WrapperParam::Extract(s) => {
            let x = cat(cat(cat(cat(let_n, ": "), s.as_str()), " = match <"), s.as_str());
            cat(cat(cat(x, " as ::pyo3::FromPyObject>::extract_bound(&::pyo3::Bound::from_object(__py, "), raw), ".clone())) { Ok(v) => v, Err(e) => return Err(::pyo3::err::into_vm_err(e)) };\n")
        },
    }
}

fn wrapper_call_code(n: &str, k: &WrapperParam) -> (r: String)
    ensures
        r@ == wrapper_call_text(n@, k@),
{
    match k {
        WrapperParam::Python => String::from_str("__py"),
        WrapperParam::Vm => String::from_str("_vm"),
        WrapperParam::Bound(r) => if *r {
            cat(String::from_str("&"), n)
        } else {
            String::from_str(n)
        },
        WrapperParam::OptionalRef(o) => if *o == OptionalBound::AsRef {
            cat(String::from_str(n), ".as_ref()")
        } else {
            String::from_str(n)
        },
        _ => String::from_str(n),
    }
}

fn wrapper_parts_code(ps: &Vec<ParamSig>, t: &str) -> (r: (String, String, String))
    ensures
        r.0@ == wrapper_params_text(param_views(ps@)),
        r.1@ == wrapper_stmts_text(param_views(ps@), t@),
        r.2@ == wrapper_args_text(param_views(ps@)),
{
    let mut params = String::new();
    let mut stmts = String::new();
    let mut args = String::new();
    let mut i: usize = 0;
    while i < ps.len()
        invariant
            i <= ps@.len(),
            params@ == wrapper_params_text(param_views(ps@).take(i as int)),
            stmts@ == wrapper_stmts_text(param_views(ps@).take(i as int), t@),
            args@ == wrapper_args_text(param_views(ps@).take(i as int)),
        decreases ps@.len() - i,
    {
        let p = &ps[i];
        let k = wrapper_param(p.ty.as_str(), true);
        proof {
            let all = param_views(ps@);
            let next = all.take(i + 1);
            assert(next.drop_last() =~= all.take(i as int));
            assert(next.last() == ps@[i as int]@);
        }
        let w = wrapper_param_code(p.name.as_str(), &k);
        if !w.as_str().is_empty() {
            params = cat(cat(params, w.as_str()), ", ");
        } else {
            proof {
                assert(params@ + Seq::<char>::empty() =~= params@);
            }
        }
        stmts = cat(stmts, wrapper_stmt_code(p.name.as_str(), &k, t).as_str());
        if i > 0 {
            args = cat(args, ", ");
        }
        args = cat(args, wrapper_call_code(p.name.as_str(), &k).as_str());
        i = i + 1;
    }
    assert(param_views(ps@).take(ps@.len() as int) =~= param_views(ps@));
    (params, stmts, args)
}

fn lines_code(a: &Vec<String>) -> (r: String)
    ensures
        r@ == lines_text(string_views(a@)),
{
    let mut s = String::new();
    let mut i: usize = 0;
    while i < a.len()
        invariant
            i <= a@.len(),
            s@ == lines_text(string_views(a@).take(i as int)),
        decreases a@.len() - i,
    {
        proof {
            let all = string_views(a@);
            let next = all.take(i + 1);
            assert(next.drop_last() =~= all.take(i as int));
            assert(next.last() == a@[i as int]@);
        }
        s = cat(cat(s, a[i].as_str()), "\n");
        i = i + 1;
    }
    assert(string_views(a@).take(a@.len() as int) =~= string_views(a@));
    s
}

/// The wrapper that `#[pymethods]` registers for the method `m` of the type `self_ty`,
/// returning with `ret_code` (see `method_return_code`).
pub fn method_wrapper_code(m: &MethodSig, self_ty: &str, ret_code: &str) -> (r: String)
    ensures
        r@ == method_wrapper_text(m@, self_ty@, ret_code@),
{
    let (params, stmts, args) = wrapper_parts_code(&m.params, self_ty);
    let f = m.name.as_str();
    let receiver = if m.receiver == Receiver::Mutable {
        "__slf: &::rustpython_vm::Py<Self>, "
    } else {
        "&self, "
    };
    let call = match m.receiver {
        Receiver::Mutable => cat(cat(cat(cat(String::from_str("{ let mut self_ = ::pyo3::PyRefMut::from_vm_ref(__py, __slf.to_owned()); self_."), f), "("), args.as_str()), ") }"),
        Receiver::Shared => cat(cat(cat(cat(String::from_str("self."), f), "("), args.as_str()), ")"),
        Receiver::Absent => cat(cat(cat(cat(String::from_str("Self::"), f), "("), args.as_str()), ")"),
    };
    let s = cat(cat(cat(cat(cat(lines_code(&m.attrs), "#[pymethod(name = \""), f), "\")]\nfn __pyo3_wrap_"), f), m.generics.as_str());
    let s = cat(cat(cat(cat(s, "("), receiver), params.as_str()), "vm: &::rustpython_vm::VirtualMachine) -> ::rustpython_vm::PyResult<::rustpython_vm::PyObjectRef> {\nlet _vm = vm;\nlet __py = ::pyo3::Python::from_vm(_vm);\nlet py = __py;\nlet vm = _vm;\n");
    let s = cat(cat(cat(cat(s, stmts.as_str()), "let __result = "), call.as_str()), ";\n");
    cat(cat(s, ret_code), "\n}\n")
}

// ─── #[pyclass] ──────────────────────────────────────────────────────────────

/// A field that `#[pyclass]` exposes to Python: its name, its rendered type, and whether
/// it is read (`get`) and written (`set`).
pub struct FieldAccessor {
    pub name: String,
    pub ty: String,
    pub get: bool,
    pub set: bool,
}

/// The mathematical content of `FieldAccessor`.
pub struct AccessorModel {
    pub name: Seq<char>,
    pub ty: Seq<char>,
    pub get: bool,
    pub set: bool,
}

impl View for FieldAccessor {
    type V = AccessorModel;

    open spec fn view(&self) -> AccessorModel {
        AccessorModel { name: self.name@, ty: self.ty@, get: self.get, set: self.set }
    }
}

pub open spec fn accessor_views(a: Seq<FieldAccessor>) -> Seq<AccessorModel> {
    Seq::new(a.len(), |i: int| a[i]@)
}

/// The Python name of the class `id`.
pub open spec fn class_py_name(id: Seq<char>, o: ClassOptionsModel) -> Seq<char> {
    match o.name {
        Some(n) => n,
        None => id,
    }
}

/// The registration of one accessor of the class `id` on its type object.
pub open spec fn registration_text(a: AccessorModel, id: Seq<char>) -> Seq<char> {
    "{\nlet getset = ::rustpython_vm::builtins::PyGetSet::new(\""@ + a.name + "\".to_string(), class)"@ + (if a.get {
        ".with_get(|obj: &"@ + id + ", vm: &::rustpython_vm::VirtualMachine| -> ::rustpython_vm::PyResult {\nlet py = ::pyo3::Python::from_vm(vm);\nOk(::pyo3::ToPyObject::to_object(&obj."@ + a.name + ", py).unbind().into_object())\n})"@
    } else {
        Seq::empty()
    }) + (if a.set {
        ".with_set(|obj: &"@ + id + ", value: "@ + a.ty + "| {\nunsafe {\nlet obj_mut = &mut *(obj as *const "@ + id + " as *mut "@ + id + ");\nobj_mut."@ + a.name
            + " = value;\n}\n})"@
    } else {
        Seq::empty()
    }) + ";\nlet getset_ref: ::rustpython_vm::PyRef<::rustpython_vm::builtins::PyGetSet> = ctx.new_pyref(getset);\nclass.set_str_attr(\""@ + a.name + "\", getset_ref, ctx);\n}\n"@
}

/// The setter part of an accessor's registration stores the value in the field.
#[verifier::spinoff_prover]
proof fn lemma_set_part_stores(a: AccessorModel, id: Seq<char>)
    ensures
        contains(set_part_text(a, id), "obj_mut."@ + a.name + " = value;"@),
        contains(set_part_text(a, id), ".with_set(|obj: &"@ + id + ", value: "@ + a.ty + "|"@),
{
    reveal_strlit(");\nobj_mut.");
    reveal_strlit(");\n");
    reveal_strlit("obj_mut.");
    reveal_strlit(" = value;\n}\n})");
    reveal_strlit(" = value;");
    reveal_strlit("\n}\n})");
    reveal_strlit("| {\nunsafe {\nlet obj_mut = &mut *(obj as *const ");
    reveal_strlit("|");
    reveal_strlit(" {\nunsafe {\nlet obj_mut = &mut *(obj as *const ");
    let set_part = set_part_text(a, id);
    let p = "obj_mut."@ + a.name + " = value;"@;
    let before = ".with_set(|obj: &"@ + id + ", value: "@ + a.ty + "| {\nunsafe {\nlet obj_mut = &mut *(obj as *const "@ + id + " as *mut "@ + id + ");\n"@;
    assert(");\nobj_mut."@ =~= ");\n"@ + "obj_mut."@);
    assert(" = value;\n}\n})"@ =~= " = value;"@ + "\n}\n})"@);
    assert(set_part =~= before + p + "\n}\n})"@);
    lemma_contains_middle(before, p, "\n}\n})"@);
    let q = ".with_set(|obj: &"@ + id + ", value: "@ + a.ty + "|"@;
    let rest = " {\nunsafe {\nlet obj_mut = &mut *(obj as *const "@ + id + " as *mut "@ + id + ");\nobj_mut."@ + a.name
        + " = value;\n}\n})"@;
    assert("| {\nunsafe {\nlet obj_mut = &mut *(obj as *const "@ =~= "|"@ + " {\nunsafe {\nlet obj_mut = &mut *(obj as *const "@);
    assert(set_part =~= Seq::<char>::empty() + q + rest);
    lemma_contains_middle(Seq::<char>::empty(), q, rest);
}

/// The getter part of an accessor's registration reads the field.
#[verifier::spinoff_prover]
proof fn lemma_get_part_reads(a: AccessorModel, id: Seq<char>)
    ensures
        contains(get_part_text(a, id), "to_object(&obj."@ + a.name + ", py)"@),
{
    reveal_strlit(", vm: &::rustpython_vm::VirtualMachine| -> ::rustpython_vm::PyResult {\nlet py = ::pyo3::Python::from_vm(vm);\nOk(::pyo3::ToPyObject::to_object(&obj.");
    reveal_strlit(", vm: &::rustpython_vm::VirtualMachine| -> ::rustpython_vm::PyResult {\nlet py = ::pyo3::Python::from_vm(vm);\nOk(::pyo3::");
    reveal_strlit("ToPyObject::to_object(&obj.");
    reveal_strlit("to_object(&obj.");
    reveal_strlit("ToPyObject::");
    reveal_strlit(", py).unbind().into_object())\n})");
    reveal_strlit(", py)");
    reveal_strlit(".unbind().into_object())\n})");
    let get_part = get_part_text(a, id);
    let p = "to_object(&obj."@ + a.name + ", py)"@;
    let after = ".unbind().into_object())\n})"@;
    assert(", vm: &::rustpython_vm::VirtualMachine| -> ::rustpython_vm::PyResult {\nlet py = ::pyo3::Python::from_vm(vm);\nOk(::pyo3::ToPyObject::to_object(&obj."@
        =~= ", vm: &::rustpython_vm::VirtualMachine| -> ::rustpython_vm::PyResult {\nlet py = ::pyo3::Python::from_vm(vm);\nOk(::pyo3::"@ + "ToPyObject::"@ + "to_object(&obj."@);
    assert(", py).unbind().into_object())\n})"@ =~= ", py)"@ + ".unbind().into_object())\n})"@);
    let w = ".with_get(|obj: &"@ + id;
    let l1 = ", vm: &::rustpython_vm::VirtualMachine| -> ::rustpython_vm::PyResult {\nlet py = ::pyo3::Python::from_vm(vm);\nOk(::pyo3::"@ + "ToPyObject::"@;
    assert(get_part == w + (l1 + "to_object(&obj."@) + a.name + (", py)"@ + after));
    let before = w + l1;
    assert(w + (l1 + "to_object(&obj."@) + a.name + (", py)"@ + after) =~= (w + l1) + ("to_object(&obj."@ + a.name + ", py)"@) + after);
    assert(get_part =~= before + p + after);
    lemma_contains_middle(before, p, after);
}

/// The getter of an accessor with `get` (empty otherwise).
pub open spec fn get_part_text(a: AccessorModel, id: Seq<char>) -> Seq<char> {
    ".with_get(|obj: &"@ + id + ", vm: &::rustpython_vm::VirtualMachine| -> ::rustpython_vm::PyResult {\nlet py = ::pyo3::Python::from_vm(vm);\nOk(::pyo3::ToPyObject::to_object(&obj."@ + a.name + ", py).unbind().into_object())\n})"@
}

/// The setter of an accessor with `set`.
pub open spec fn set_part_text(a: AccessorModel, id: Seq<char>) -> Seq<char> {
    ".with_set(|obj: &"@ + id + ", value: "@ + a.ty + "| {\nunsafe {\nlet obj_mut = &mut *(obj as *const "@ + id + " as *mut "@ + id + ");\nobj_mut."@ + a.name
        + " = value;\n}\n})"@
}

/// The registration of an accessor with `set` stores the assigned value in the field
/// itself (`obj_mut.<name> = value;`) through a setter that takes the field's type, and
/// one with `get` reads that same field; so a set followed by a get of the field gives
/// back the value set.
pub proof fn lemma_accessor_set_stores_the_field(a: AccessorModel, id: Seq<char>)
    ensures
        a.set ==> contains(registration_text(a, id), "obj_mut."@ + a.name + " = value;"@),
        a.set ==> contains(registration_text(a, id), ".with_set(|obj: &"@ + id + ", value: "@ + a.ty + "|"@),
        a.get ==> contains(registration_text(a, id), "to_object(&obj."@ + a.name + ", py)"@),
{
    let head = "{\nlet getset = ::rustpython_vm::builtins::PyGetSet::new(\""@ + a.name + "\".to_string(), class)"@;
    let get_part = if a.get { get_part_text(a, id) } else { Seq::empty() };
    let set_part = if a.set { set_part_text(a, id) } else { Seq::empty() };
    let tail = ";\nlet getset_ref: ::rustpython_vm::PyRef<::rustpython_vm::builtins::PyGetSet> = ctx.new_pyref(getset);\nclass.set_str_attr(\""@ + a.name + "\", getset_ref, ctx);\n}\n"@;
    assert(registration_text(a, id) == head + get_part + set_part + tail);
    if a.set {
        lemma_set_part_stores(a, id);
        lemma_contains_within(head + get_part, set_part, tail, "obj_mut."@ + a.name + " = value;"@);
        lemma_contains_within(head + get_part, set_part, tail, ".with_set(|obj: &"@ + id + ", value: "@ + a.ty + "|"@);
    }
    if a.get {
        lemma_get_part_reads(a, id);
        lemma_contains_within(head, get_part, set_part + tail, "to_object(&obj."@ + a.name + ", py)"@);
        assert(head + get_part + set_part + tail =~= head + get_part + (set_part + tail));
    }
}

pub open spec fn registrations_text(acc: Seq<AccessorModel>, id: Seq<char>) -> Seq<char>
    decreases acc.len(),
{
    if acc.len() == 0 {
        Seq::empty()
    } else {
        registrations_text(acc.drop_last(), id) + registration_text(acc.last(), id)
    }
}

/// Each accessor's registration occurs in the registrations of the class.
proof fn lemma_registration_in_registrations(acc: Seq<AccessorModel>, id: Seq<char>, i: int, p: Seq<char>)
    requires
        0 <= i < acc.len(),
        contains(registration_text(acc[i], id), p),
    ensures
        contains(registrations_text(acc, id), p),
    decreases acc.len(),
{
    if i == acc.len() - 1 {
        lemma_contains_within(registrations_text(acc.drop_last(), id), registration_text(acc[i], id), Seq::empty(), p);
        assert(registrations_text(acc.drop_last(), id) + registration_text(acc[i], id) + Seq::<char>::empty()
            =~= registrations_text(acc, id));
    } else {
        lemma_registration_in_registrations(acc.drop_last(), id, i, p);
        lemma_contains_within(Seq::empty(), registrations_text(acc.drop_last(), id), registration_text(acc.last(), id), p);
        assert(Seq::<char>::empty() + registrations_text(acc.drop_last(), id) + registration_text(acc.last(), id)
            =~= registrations_text(acc, id));
    }
}

/// In the accessor impl of a class, every field with `set` is stored by its setter and
/// every field with `get` is read by its getter, whatever the other fields are: a set
/// followed by a get of the same field gives back the value set.
pub proof fn lemma_class_setters_store_their_fields(acc: Seq<AccessorModel>, id: Seq<char>, i: int)
    requires
        0 <= i < acc.len(),
    ensures
        acc[i].set ==> contains(accessor_impl_text(acc, id), "obj_mut."@ + acc[i].name + " = value;"@),
        acc[i].get ==> contains(accessor_impl_text(acc, id), "to_object(&obj."@ + acc[i].name + ", py)"@),
{
    lemma_accessor_set_stores_the_field(acc[i], id);
    let head = "impl ::pyo3::Pyo3Accessors for "@ + id + " {\nfn __pyo3_register_accessors(ctx: &::rustpython_vm::Context, class: &'static ::rustpython_vm::Py<::rustpython_vm::builtins::PyType>) {\nuse ::rustpython_vm::AsObject;\n"@;
    let tail = "}\n}\n"@;
    if acc[i].set {
        let p = "obj_mut."@ + acc[i].name + " = value;"@;
        lemma_registration_in_registrations(acc, id, i, p);
        lemma_contains_within(head, registrations_text(acc, id), tail, p);
    }
    if acc[i].get {
        let p = "to_object(&obj."@ + acc[i].name + ", py)"@;
        lemma_registration_in_registrations(acc, id, i, p);
        lemma_contains_within(head, registrations_text(acc, id), tail, p);
    }
}

/// The `Pyo3Accessors` impl, which registers the accessors of the class `id`.
pub open spec fn accessor_impl_text(acc: Seq<AccessorModel>, id: Seq<char>) -> Seq<char> {
    if acc.len() == 0 {
        "impl ::pyo3::Pyo3Accessors for "@ + id + " {\nfn __pyo3_register_accessors(_ctx: &::rustpython_vm::Context, _class: &'static ::rustpython_vm::Py<::rustpython_vm::builtins::PyType>) {}\n}\n"@
    } else {
        "impl ::pyo3::Pyo3Accessors for "@ + id + " {\nfn __pyo3_register_accessors(ctx: &::rustpython_vm::Context, class: &'static ::rustpython_vm::Py<::rustpython_vm::builtins::PyType>) {\nuse ::rustpython_vm::AsObject;\n"@ + registrations_text(acc, id) + "}\n}\n"@
    }
}

/// The type flags of the class: the defaults, and `BASETYPE` and `SEQUENCE` as the
/// options ask.
pub open spec fn flags_text(o: ClassOptionsModel) -> Seq<char> {
    "(if cfg!(debug_assertions) { ::rustpython_vm::types::PyTypeFlags::DEFAULT.union(::rustpython_vm::types::PyTypeFlags::_CREATED_WITH_FLAGS) } else { ::rustpython_vm::types::PyTypeFlags::DEFAULT })"@ + (if o.subclass {
        ".union(::rustpython_vm::types::PyTypeFlags::BASETYPE)"@
    } else {
        Seq::empty()
    }) + (if o.sequence {
        ".union(::rustpython_vm::types::PyTypeFlags::SEQUENCE)"@
    } else {
        Seq::empty()
    })
}

/// The attribute that `#[pyclass]` puts on the struct `id`, and the items it emits after
/// it, given the class options, whether the struct derives `Debug` already, and the
/// fields it exposes.
pub open spec fn pyclass_text(
    id: Seq<char>,
    o: ClassOptionsModel,
    has_debug: bool,
    acc: Seq<AccessorModel>,
) -> (Seq<char>, Seq<char>) {
    let py = class_py_name(id, o);
    let inv = "__Pyo3InventoryFor"@ + id;
    let debug = if has_debug {
        Seq::empty()
    } else {
        "impl ::core::fmt::Debug for "@ + id + " {\nfn fmt(&self, f: &mut ::core::fmt::Formatter<'_>) -> ::core::fmt::Result {\nf.debug_struct(\""@ + py + "\").finish_non_exhaustive()\n}\n}\n"@
    };
    let base_init = match o.extends {
        Some(b) => "{\nlet base_type = <"@ + b + " as ::pyo3::PyTypeObjectExt>::type_object_raw(ctx);\nlet child_type = <Self as ::rustpython_vm::class::StaticType>::static_type();\n*child_type.bases.write() = vec![base_type.to_owned()];\nlet base_mro: Vec<_> = base_type.mro.read().iter().cloned().collect();\nlet new_mro: Vec<_> = ::std::iter::once(child_type.to_owned()).chain(base_mro).collect();\n*child_type.mro.write() = new_mro;\n}\n"@,
        None => Seq::empty(),
    };
    let payload = "impl ::rustpython_vm::PyPayload for "@ + id + " {\n#[inline]\nfn class(ctx: &::rustpython_vm::Context) -> &'static ::rustpython_vm::Py<::rustpython_vm::builtins::PyType> {\nlet already_init = <Self as ::rustpython_vm::class::StaticType>::static_cell().get().is_some();\nlet _ = ctx;\n<Self as ::rustpython_vm::class::PyClassImpl>::make_static_type();\nlet typ = <Self as ::rustpython_vm::class::StaticType>::static_type();\nif !already_init {\n"@ + base_init + "for __pyo3_items in ::pyo3::inventory::iter::<"@ + inv + "> {\nlet __pyo3_items = ::pyo3::Pyo3ClassInventory::items(__pyo3_items);\n(__pyo3_items.extend_class)(ctx, typ);\ntyp.extend_methods(__pyo3_items.methods, ctx);\n::pyo3::slots::apply_inventory_slots(typ, __pyo3_items.extend_slots);\n}\n::pyo3::slots::fixup_dunder_slots(typ, ctx);\n}\ntyp\n}\n}\n"@;
    let rest = "impl<'py> ::pyo3::IntoPyObject<'py> for "@ + id + " {\ntype Target = ::pyo3::types::PyAny;\ntype Error = ::pyo3::PyErr;\nfn into_pyobject(self, py: ::pyo3::Python<'py>) -> Result<::pyo3::Bound<'py, Self::Target>, Self::Error> {\nlet obj = ::rustpython_vm::convert::ToPyObject::to_pyobject(self, py.vm());\nOk(::pyo3::Bound::from_object(py, obj))\n}\n}\nimpl ::pyo3::PyTypeInfo for "@ + id + " {\nconst NAME: &'static str = \""@ + py + "\";\nconst MODULE: Option<&'static str> = None;\n}\nimpl<'py> ::pyo3::FromPyObject<'py> for &'py "@ + id + " {\nfn extract_bound(ob: &::pyo3::Bound<'py, ::pyo3::types::PyAny>) -> ::pyo3::PyResult<Self> {\nob.downcast_payload::<"@ + id + ">().ok_or_else(|| ::pyo3::PyErr::new_type_error(ob.py(), \"type mismatch\"))\n}\n}\n"@;
    let from_obj = if o.from_py_object {
        "impl<'py> ::pyo3::FromPyObject<'py> for "@ + id + " {\nfn extract_bound(ob: &::pyo3::Bound<'py, ::pyo3::types::PyAny>) -> ::pyo3::PyResult<Self> {\nlet ref_val: &"@ + id + " = <&"@ + id + " as ::pyo3::FromPyObject<'py>>::extract_bound(ob)?;\nOk(ref_val.clone())\n}\n}\n"@
    } else {
        Seq::empty()
    };
    let base_payload = "impl ::pyo3::Pyo3BasePayload for "@ + id + " {\ntype BasePayload = "@ + (match o.extends {
        Some(b) => b,
        None => "::rustpython_vm::builtins::PyBaseObject"@,
    }) + ";\n}\n"@;
    let class_impl = "impl ::rustpython_vm::class::PyClassImpl for "@ + id + " {\nconst TP_FLAGS: ::rustpython_vm::types::PyTypeFlags = "@ + flags_text(o) + ";\nfn impl_extend_class(ctx: &'static ::rustpython_vm::Context, class: &'static ::rustpython_vm::Py<::rustpython_vm::builtins::PyType>) {\n<Self as ::pyo3::Pyo3Accessors>::__pyo3_register_accessors(ctx, class);\n}\nconst METHOD_DEFS: &'static [::rustpython_vm::function::PyMethodDef] = &[];\nfn extend_slots(_slots: &mut ::rustpython_vm::types::PyTypeSlots) {}\n}\n"@;
    let inventory = "#[doc(hidden)]\npub struct "@ + inv + " {\nitems: ::pyo3::Pyo3ClassItems,\n}\nimpl "@ + inv + " {\npub const fn new(items: ::pyo3::Pyo3ClassItems) -> Self {\nSelf { items }\n}\n}\nimpl ::pyo3::Pyo3ClassInventory for "@ + inv + " {\nfn items(&'static self) -> &'static ::pyo3::Pyo3ClassItems {\n&self.items\n}\n}\n::pyo3::inventory::collect!("@ + inv + ");\n"@;
    (
        "#[::rustpython_vm::pyclass(module = false, name = \""@ + py + "\")]\n"@,
        debug + payload + rest + from_obj + base_payload + accessor_impl_text(acc, id) + class_impl
            + inventory,
    )
}

fn registration_code(a: &FieldAccessor, id: &str) -> (r: String)
    ensures
        r@ == registration_text(a@, id@),
{
    let n = a.name.as_str();
    let s = cat(cat(String::from_str("{\nlet getset = ::rustpython_vm::builtins::PyGetSet::new(\""), n), "\".to_string(), class)");
    let s = if a.get {
        cat(cat(cat(cat(cat(s, ".with_get(|obj: &"), id), ", vm: &::rustpython_vm::VirtualMachine| -> ::rustpython_vm::PyResult {\nlet py = ::pyo3::Python::from_vm(vm);\nOk(::pyo3::ToPyObject::to_object(&obj."), n), ", py).unbind().into_object())\n})")
    } else {
        s
    };
    let s = if a.set {
        let s = cat(cat(cat(cat(cat(s, ".with_set(|obj: &"), id), ", value: "), a.ty.as_str()), "| {\nunsafe {\nlet obj_mut = &mut *(obj as *const ");
        cat(cat(cat(cat(cat(cat(s, id), " as *mut "), id), ");\nobj_mut."), n), " = value;\n}\n})")
    } else {
        s
    };
    cat(cat(cat(s, ";\nlet getset_ref: ::rustpython_vm::PyRef<::rustpython_vm::builtins::PyGetSet> = ctx.new_pyref(getset);\nclass.set_str_attr(\""), n), "\", getset_ref, ctx);\n}\n")
}

fn accessor_impl_code(acc: &Vec<FieldAccessor>, id: &str) -> (r: String)
    ensures
        r@ == accessor_impl_text(accessor_views(acc@), id@),
{
    if acc.len() == 0 {
        return cat(cat(String::from_str("impl ::pyo3::Pyo3Accessors for "), id), " {\nfn __pyo3_register_accessors(_ctx: &::rustpython_vm::Context, _class: &'static ::rustpython_vm::Py<::rustpython_vm::builtins::PyType>) {}\n}\n");
    }
    let mut regs = String::new();
    let mut i: usize = 0;
    while i < acc.len()
        invariant
            i <= acc@.len(),
            regs@ == registrations_text(accessor_views(acc@).take(i as int), id@),
        decreases acc@.len() - i,
    {
        proof {
            let all = accessor_views(acc@);
            let next = all.take(i + 1);
            assert(next.drop_last() =~= all.take(i as int));
            assert(next.last() == acc@[i as int]@);
        }
        regs = cat(regs, registration_code(&acc[i], id).as_str());
        i = i + 1;
    }
    assert(accessor_views(acc@).take(acc@.len() as int) =~= accessor_views(acc@));
    cat(cat(cat(cat(String::from_str("impl ::pyo3::Pyo3Accessors for "), id), " {\nfn __pyo3_register_accessors(ctx: &::rustpython_vm::Context, class: &'static ::rustpython_vm::Py<::rustpython_vm::builtins::PyType>) {\nuse ::rustpython_vm::AsObject;\n"), regs.as_str()), "}\n}\n")
}

/// The attribute that `#[pyclass]` puts on the struct `ident` and the items it emits
/// after it, given the text of the macro's attribute (read by `parse_pyclass_options`),
/// whether the struct derives `Debug` already (see `derives_debug`), and the fields it
/// exposes (see `field_accessors`).
pub fn pyclass_code(
    ident: &str,
    attr: &str,
    has_debug: bool,
    accessors: &Vec<FieldAccessor>,
) -> (r: (String, String))
    ensures
        exists|oks: Seq<bool>| {
            &&& path_answers_ok(attr@, oks)
            &&& r.0@ == pyclass_text(ident@, class_options(attr@, oks), has_debug, accessor_views(accessors@)).0
            &&& r.1@ == pyclass_text(ident@, class_options(attr@, oks), has_debug, accessor_views(accessors@)).1
        },
{
    let opts = parse_pyclass_options(attr);
    let ghost oks = choose|oks: Seq<bool>| oks.len() == split_char(attr@, ',').len() && path_answers_ok(attr@, oks) && opts@ == class_options(attr@, oks);
    let py = opts.python_name(ident);
    let py = py.as_str();
    let inv = cat(String::from_str("__Pyo3InventoryFor"), ident);
    let inv = inv.as_str();
    let debug = if has_debug {
        String::new()
    } else {
        cat(cat(cat(cat(String::from_str("impl ::core::fmt::Debug for "), ident), " {\nfn fmt(&self, f: &mut ::core::fmt::Formatter<'_>) -> ::core::fmt::Result {\nf.debug_struct(\""), py), "\").finish_non_exhaustive()\n}\n}\n")
    };
    let base_init = match &opts.extends {
        Some(b) => cat(cat(String::from_str("{\nlet base_type = <"), b.as_str()), " as ::pyo3::PyTypeObjectExt>::type_object_raw(ctx);\nlet child_type = <Self as ::rustpython_vm::class::StaticType>::static_type();\n*child_type.bases.write() = vec![base_type.to_owned()];\nlet base_mro: Vec<_> = base_type.mro.read().iter().cloned().collect();\nlet new_mro: Vec<_> = ::std::iter::once(child_type.to_owned()).chain(base_mro).collect();\n*child_type.mro.write() = new_mro;\n}\n"),
        None => String::new(),
    };
    let payload = cat(cat(cat(cat(String::from_str("impl ::rustpython_vm::PyPayload for "), ident), " {\n#[inline]\nfn class(ctx: &::rustpython_vm::Context) -> &'static ::rustpython_vm::Py<::rustpython_vm::builtins::PyType> {\nlet already_init = <Self as ::rustpython_vm::class::StaticType>::static_cell().get().is_some();\nlet _ = ctx;\n<Self as ::rustpython_vm::class::PyClassImpl>::make_static_type();\nlet typ = <Self as ::rustpython_vm::class::StaticType>::static_type();\nif !already_init {\n"), base_init.as_str()), "for __pyo3_items in ::pyo3::inventory::iter::<");
    let payload = cat(cat(payload, inv), "> {\nlet __pyo3_items = ::pyo3::Pyo3ClassInventory::items(__pyo3_items);\n(__pyo3_items.extend_class)(ctx, typ);\ntyp.extend_methods(__pyo3_items.methods, ctx);\n::pyo3::slots::apply_inventory_slots(typ, __pyo3_items.extend_slots);\n}\n::pyo3::slots::fixup_dunder_slots(typ, ctx);\n}\ntyp\n}\n}\n");
    let rest = cat(cat(cat(cat(cat(cat(String::from_str("impl<'py> ::pyo3::IntoPyObject<'py> for "), ident), " {\ntype Target = ::pyo3::types::PyAny;\ntype Error = ::pyo3::PyErr;\nfn into_pyobject(self, py: ::pyo3::Python<'py>) -> Result<::pyo3::Bound<'py, Self::Target>, Self::Error> {\nlet obj = ::rustpython_vm::convert::ToPyObject::to_pyobject(self, py.vm());\nOk(::pyo3::Bound::from_object(py, obj))\n}\n}\nimpl ::pyo3::PyTypeInfo for "), ident), " {\nconst NAME: &'static str = \""), py), "\";\nconst MODULE: Option<&'static str> = None;\n}\nimpl<'py> ::pyo3::FromPyObject<'py> for &'py ");
    let rest = cat(cat(cat(cat(rest, ident), " {\nfn extract_bound(ob: &::pyo3::Bound<'py, ::pyo3::types::PyAny>) -> ::pyo3::PyResult<Self> {\nob.downcast_payload::<"), ident), ">().ok_or_else(|| ::pyo3::PyErr::new_type_error(ob.py(), \"type mismatch\"))\n}\n}\n");
    let from_obj = if opts.from_py_object {
        let f = cat(cat(cat(cat(String::from_str("impl<'py> ::pyo3::FromPyObject<'py> for "), ident), " {\nfn extract_bound(ob: &::pyo3::Bound<'py, ::pyo3::types::PyAny>) -> ::pyo3::PyResult<Self> {\nlet ref_val: &"), ident), " = <&");
        cat(cat(f, ident), " as ::pyo3::FromPyObject<'py>>::extract_bound(ob)?;\nOk(ref_val.clone())\n}\n}\n")
    } else {
        String::new()
    };
    let bp = cat(cat(String::from_str("impl ::pyo3::Pyo3BasePayload for "), ident), " {\ntype BasePayload = ");
    let bp = match &opts.extends {
        Some(b) => cat(bp, b.as_str()),
        None => cat(bp, "::rustpython_vm::builtins::PyBaseObject"),
    };
    let bp = cat(bp, ";\n}\n");
    let mut flags = String::from_str("(if cfg!(debug_assertions) { ::rustpython_vm::types::PyTypeFlags::DEFAULT.union(::rustpython_vm::types::PyTypeFlags::_CREATED_WITH_FLAGS) } else { ::rustpython_vm::types::PyTypeFlags::DEFAULT })");
    if opts.subclass {
        flags = cat(flags, ".union(::rustpython_vm::types::PyTypeFlags::BASETYPE)");
    }
    if opts.sequence {
        flags = cat(flags, ".union(::rustpython_vm::types::PyTypeFlags::SEQUENCE)");
    }
    proof {
        assert(flags@ =~= flags_text(opts@));
    }
    let class_impl = cat(cat(cat(cat(String::from_str("impl ::rustpython_vm::class::PyClassImpl for "), ident), " {\nconst TP_FLAGS: ::rustpython_vm::types::PyTypeFlags = "), flags.as_str()), ";\nfn impl_extend_class(ctx: &'static ::rustpython_vm::Context, class: &'static ::rustpython_vm::Py<::rustpython_vm::builtins::PyType>) {\n<Self as ::pyo3::Pyo3Accessors>::__pyo3_register_accessors(ctx, class);\n}\nconst METHOD_DEFS: &'static [::rustpython_vm::function::PyMethodDef] = &[];\nfn extend_slots(_slots: &mut ::rustpython_vm::types::PyTypeSlots) {}\n}\n");
    let inventory = cat(cat(cat(cat(String::from_str("#[doc(hidden)]\npub struct "), inv), " {\nitems: ::pyo3::Pyo3ClassItems,\n}\nimpl "), inv), " {\npub const fn new(items: ::pyo3::Pyo3ClassItems) -> Self {\nSelf { items }\n}\n}\nimpl ::pyo3::Pyo3ClassInventory for ");
    let inventory = cat(cat(cat(cat(inventory, inv), " {\nfn items(&'static self) -> &'static ::pyo3::Pyo3ClassItems {\n&self.items\n}\n}\n::pyo3::inventory::collect!("), inv), ");\n");
    let items = cat(cat(cat(cat(debug, payload.as_str()), rest.as_str()), from_obj.as_str()), bp.as_str());
    let items = cat(cat(cat(items, accessor_impl_code(accessors, ident).as_str()), class_impl.as_str()), inventory.as_str());
    let attr = cat(cat(String::from_str("#[::rustpython_vm::pyclass(module = false, name = \""), py), "\")]\n");
    (attr, items)
}

// ─── #[pymethods]: the impl block ───────────────────────────────────────────

/// The attribute that `#[pymethods]` puts before a method that needs no wrapper, by the
/// method's role; `None` for the roles whose methods stay as they are.
pub open spec fn role_attr(role: MethodRole) -> Option<Seq<char>> {
    match role {
        MethodRole::Getter => Some("#[pygetset]"@),
        MethodRole::Setter => Some("#[pygetset(setter)]"@),
        MethodRole::StaticMethod => Some("#[pystaticmethod]"@),
        MethodRole::ClassMethod => Some("#[pyclassmethod]"@),
        MethodRole::Method => Some("#[pymethod]"@),
        _ => None,
    }
}

pub open spec fn annotated_item_text(role: MethodRole, item: Seq<char>) -> Seq<char> {
    match role_attr(role) {
        Some(a) => a + "\n"@ + item,
        None => item,
    }
}

/// The item that `#[pymethods]` emits for a method that needs no wrapper, from the
/// method's text with its pyo3 attributes removed.
pub fn annotated_item_code(role: MethodRole, item: &str) -> (r: String)
    ensures
        r@ == annotated_item_text(role, item@),
{
    let attr = match role {
        MethodRole::Getter => "#[pygetset]\n",
        MethodRole::Setter => "#[pygetset(setter)]\n",
        MethodRole::StaticMethod => "#[pystaticmethod]\n",
        MethodRole::ClassMethod => "#[pyclassmethod]\n",
        MethodRole::Method => "#[pymethod]\n",
        _ => {
            return String::from_str(item);
        },
    };
    proof {
        reveal_strlit("#[pygetset]\n");
        reveal_strlit("#[pygetset]");
        reveal_strlit("#[pygetset(setter)]\n");
        reveal_strlit("#[pygetset(setter)]");
        reveal_strlit("#[pystaticmethod]\n");
        reveal_strlit("#[pystaticmethod]");
        reveal_strlit("#[pyclassmethod]\n");
        reveal_strlit("#[pyclassmethod]");
        reveal_strlit("#[pymethod]\n");
        reveal_strlit("#[pymethod]");
        reveal_strlit("\n");
    }
    cat(String::from_str(attr), item)
}

/// What `#[pymethods]` emits for the impl block of `t` (whose last path segment is
/// `ident`): the impl block with the emitted `items`, registered with the class's
/// inventory; the `Constructor` impl, where there is a `#[new]`; the `#[classattr]`
/// constants `consts` in an impl of their own; and the `outer` items.
pub open spec fn pymethods_text(
    t: Seq<char>,
    ident: Seq<char>,
    items: Seq<Seq<char>>,
    ctor: Option<Seq<char>>,
    consts: Seq<Seq<char>>,
    outer: Seq<Seq<char>>,
) -> Seq<char> {
    let head = if ctor is Some {
        "#[::rustpython_vm::pyclass(payload = \"__Pyo3MethodHelper\", with(::rustpython_vm::types::Constructor))]\n"@
    } else {
        "#[::rustpython_vm::pyclass(payload = \"__Pyo3MethodHelper\")]\n"@
    };
    let consts_impl = if consts.len() == 0 {
        Seq::empty()
    } else {
        "impl "@ + t + " {\n"@ + lines_text(consts) + "}\n"@
    };
    head + "impl "@ + t + " {\n"@ + lines_text(items) + "}\n"@ + "::pyo3::inventory::submit! {\n__Pyo3InventoryFor"@ + ident + "::new(::pyo3::Pyo3ClassItems {\nmethods: "@ + t + "::__OWN_METHOD_DEFS,\nextend_class: |ctx, class| {\n"@ + t
        + "::__extend_py_class(unsafe { ::std::mem::transmute::<&::rustpython_vm::Context, &'static ::rustpython_vm::Context>(ctx) }, class)\n},\nextend_slots: "@ + t + "::__extend_slots,\n})\n}\n"@ + (match ctor {
        Some(c) => c,
        None => Seq::empty(),
    }) + consts_impl + lines_text(outer)
}

/// What `#[pymethods]` emits for the impl block of the type `self_ty` (whose last path
/// segment is `ident`), from the items emitted for its methods, the `Constructor` impl
/// of its `#[new]` (see `constructor_code`), its `#[classattr]` constants and the other
/// items to emit after it.
pub fn pymethods_code(
    self_ty: &str,
    ident: &str,
    items: &Vec<String>,
    ctor: Option<&str>,
    consts: &Vec<String>,
    outer: &Vec<String>,
) -> (r: String)
    ensures
        r@ == pymethods_text(
            self_ty@,
            ident@,
            string_views(items@),
            match ctor {
                Some(c) => Some(c@),
                None => None,
            },
            string_views(consts@),
            string_views(outer@),
        ),
{
    let head = if ctor.is_some() {
        "#[::rustpython_vm::pyclass(payload = \"__Pyo3MethodHelper\", with(::rustpython_vm::types::Constructor))]\n"
    } else {
        "#[::rustpython_vm::pyclass(payload = \"__Pyo3MethodHelper\")]\n"
    };
    let s = cat(cat(cat(cat(String::from_str(head), "impl "), self_ty), " {\n"), lines_code(items).as_str());
    let s = cat(cat(cat(cat(s, "}\n"), "::pyo3::inventory::submit! {\n__Pyo3InventoryFor"), ident), "::new(::pyo3::Pyo3ClassItems {\nmethods: ");
    let s = cat(cat(cat(cat(cat(cat(s, self_ty), "::__OWN_METHOD_DEFS,\nextend_class: |ctx, class| {\n"), self_ty), "::__extend_py_class(unsafe { ::std::mem::transmute::<&::rustpython_vm::Context, &'static ::rustpython_vm::Context>(ctx) }, class)\n},\nextend_slots: "), self_ty), "::__extend_slots,\n})\n}\n");
    let s = match ctor {
        Some(c) => cat(s, c),
        None => s,
    };
    let s = if consts.len() == 0 {
        s
    } else {
        cat(s, cat(cat(cat(cat(String::from_str("impl "), self_ty), " {\n"), lines_code(consts).as_str()), "}\n").as_str())
    };
    proof {
        assert(s@ + Seq::<char>::empty() =~= s@);
    }
    cat(s, lines_code(outer).as_str())
}

// ─── #[pymethods]: wrappers of slot dunders ──────────────────────────────────

/// The statement that makes parameter `n` of rendered type `ty`, planned as `k`, in the
/// wrapper of a slot dunder of type `t`.
pub open spec fn slot_stmt_text(n: Seq<char>, k: WrapperParamKind, ty: Seq<char>, t: Seq<char>) -> Seq<char> {
    match k {
        WrapperParamKind::Python => "let "@ + n + " = __py;\n"@,
        WrapperParamKind::Vm => "let "@ + n + " = _vm;\n"@,
        WrapperParamKind::Bound(_) | WrapperParamKind::OptionalRef(_) | WrapperParamKind::Optional(_) =>
            wrapper_stmt_text(n, k, t) + "let "@ + n + ": "@ + ty + " = "@ + wrapper_call_text(n, k) + ";\n"@,
        _ => wrapper_stmt_text(n, k, t),
    }
}

pub open spec fn slot_kind(p: ParamModel) -> WrapperParamKind {
    wrapper_param_spec(p.ty, false)
}

pub open spec fn slot_params_text(ps: Seq<ParamModel>) -> Seq<char>
    decreases ps.len(),
{
    if ps.len() == 0 {
        Seq::empty()
    } else {
        let p = ps.last();
        let w = wrapper_param_text(p.name, slot_kind(p));
        slot_params_text(ps.drop_last()) + if w.len() == 0 {
            Seq::empty()
        } else {
            w + ", "@
        }
    }
}

pub open spec fn slot_stmts_text(ps: Seq<ParamModel>, t: Seq<char>) -> Seq<char>
    decreases ps.len(),
{
    if ps.len() == 0 {
        Seq::empty()
    } else {
        slot_stmts_text(ps.drop_last(), t) + slot_stmt_text(ps.last().name, slot_kind(ps.last()), ps.last().ty, t)
    }
}

pub open spec fn slot_args_text(ps: Seq<ParamModel>) -> Seq<char>
    decreases ps.len(),
{
    if ps.len() == 0 {
        Seq::empty()
    } else if ps.len() == 1 {
        ps[0].name
    } else {
        slot_args_text(ps.drop_last()) + ", "@ + ps.last().name
    }
}

/// A first parameter typed `PyRefMut<..>` (`Some(true)`) or `PyRef<..>` (`Some(false)`)
/// of an associated function stands for the receiver.
pub open spec fn typed_receiver_of(m: MethodModel) -> Option<bool> {
    if m.receiver == Receiver::Absent && m.params.len() > 0 {
        let t = compact(m.params[0].ty);
        if contains(t, "PyRefMut<"@) {
            Some(true)
        } else if contains(t, "PyRef<"@) {
            Some(false)
        } else {
            None
        }
    } else {
        None
    }
}

/// The wrapper that `#[pymethods]` registers, under the alias `_pyo3_slot_<name>` whose
/// attribute the class's slot wiring copies back to `<name>`, for the slot dunder `m` of
/// the type `t`; `ret` is the code with which it returns (see
/// `method_return_code`). Where a typed first parameter stands for the receiver, the
/// method's `body`, of return type `ret_ty`, is run in the wrapper itself.
pub open spec fn slot_wrapper_text(m: MethodModel, t: Seq<char>, body: Seq<char>, ret_ty: Seq<char>, ret: Seq<char>) -> Seq<char> {
    let f = m.name;
    let typed = typed_receiver_of(m);
    let ps = if typed is Some {
        m.params.drop_first()
    } else {
        m.params
    };
    let stmts = slot_stmts_text(ps, t);
    let receiver = if typed is Some || m.receiver == Receiver::Mutable {
        "__slf: &::rustpython_vm::Py<Self>, "@
    } else {
        "&self, "@
    };
    let call = match typed {
        Some(true) => "{\nlet mut "@ + m.params[0].name + " = ::pyo3::PyRefMut::from_vm_ref(__py, __slf.to_owned());\n"@ + stmts + "let __result: "@ + ret_ty + " = { "@ + body
            + " };\n__result\n}"@,
        Some(false) => "{\nlet "@ + m.params[0].name + " = ::pyo3::PyRef::from_vm_ref(__py, __slf.to_owned());\n"@ + stmts + "let __result: "@ + ret_ty + " = { "@ + body
            + " };\n__result\n}"@,
        None => match m.receiver {
            Receiver::Mutable => "{\nlet mut __pyo3_slf"@ + " = ::pyo3::PyRefMut::from_vm_ref(__py, __slf.to_owned());\n"@ + stmts + "let __result = __pyo3_slf."@ + f + "("@
                + slot_args_text(ps) + ");\n__result\n}"@,
            Receiver::Shared => "{\n"@ + stmts + "let __result = self."@ + f + "("@ + slot_args_text(ps) + ");\n__result\n}"@,
            Receiver::Absent => "{\n"@ + stmts + "let __result = Self::"@ + f + "("@ + slot_args_text(ps) + ");\n__result\n}"@,
        },
    };
    lines_text(m.attrs) + "#[pymethod(name = \""@ + alias_of(f) + "\")]\nfn __pyo3_wrap_"@ + f + m.generics + "("@ + receiver + slot_params_text(ps) + "vm: &::rustpython_vm::VirtualMachine) -> ::rustpython_vm::PyResult<::rustpython_vm::PyObjectRef> {\nlet _vm = vm;\nlet __py = ::pyo3::Python::from_vm(_vm);\nlet py = __py;\nlet vm = _vm;\n"@ + "let __result = "@
        + call + ";\n"@ + ret + "\n}\n"@
}

fn slot_stmt_code(n: &str, k: &WrapperParam, ty: &str, t: &str) -> (r: String)
    ensures
        r@ == slot_stmt_text(n@, k@, ty@, t@),
{
    match k {
        WrapperParam::Python => cat(cat(String::from_str("let "), n), " = __py;\n"),
        WrapperParam::Vm => cat(cat(String::from_str("let "), n), " = _vm;\n"),
        WrapperParam::Bound(_) | WrapperParam::OptionalRef(_) | WrapperParam::Optional(_) => {
            let s = cat(cat(cat(wrapper_stmt_code(n, k, t), "let "), n), ": ");
            cat(cat(cat(cat(s, ty), " = "), wrapper_call_code(n, k).as_str()), ";\n")
        },
        _ => wrapper_stmt_code(n, k, t),
    }
}

fn slot_parts_code(ps: &Vec<ParamSig>, skip: usize, t: &str) -> (r: (String, String, String))
    requires
        skip <= ps@.len(),
    ensures
        r.0@ == slot_params_text(param_views(ps@).skip(skip as int)),
        r.1@ == slot_stmts_text(param_views(ps@).skip(skip as int), t@),
        r.2@ == slot_args_text(param_views(ps@).skip(skip as int)),
{
    let ghost all = param_views(ps@).skip(skip as int);
    let mut params = String::new();
    let mut stmts = String::new();
    let mut args = String::new();
    let mut i: usize = skip;
    while i < ps.len()
        invariant
            skip <= i <= ps@.len(),
            all == param_views(ps@).skip(skip as int),
            params@ == slot_params_text(all.take(i - skip)),
            stmts@ == slot_stmts_text(all.take(i - skip), t@),
            args@ == slot_args_text(all.take(i - skip)),
        decreases ps@.len() - i,
    {
        let p = &ps[i];
        let k = wrapper_param(p.ty.as_str(), false);
        proof {
            let next = all.take(i + 1 - skip);
            assert(next.drop_last() =~= all.take(i - skip));
            assert(next.last() == ps@[i as int]@);
            if i == skip {
                assert(next[0] == ps@[i as int]@);
            }
        }
        let w = wrapper_param_code(p.name.as_str(), &k);
        if !w.as_str().is_empty() {
            params = cat(cat(params, w.as_str()), ", ");
        } else {
            proof {
                assert(params@ + Seq::<char>::empty() =~= params@);
            }
        }
        stmts = cat(stmts, slot_stmt_code(p.name.as_str(), &k, p.ty.as_str(), t).as_str());
        if i > skip {
            args = cat(args, ", ");
        }
        args = cat(args, p.name.as_str());
        i = i + 1;
    }
    assert(all.take(ps@.len() - skip) =~= all);
    (params, stmts, args)
}

/// The wrapper that `#[pymethods]` registers, under `_pyo3_slot_<name>`, for the slot
/// dunder `m` of the type `self_ty`, returning with `ret_code` (see
/// `method_return_code`); `body` and `ret_ty` are the text of the method's body and of
/// its return type (`()` where it declares none), run in place where a typed first
/// parameter stands for the receiver.
pub fn slot_wrapper_code(m: &MethodSig, self_ty: &str, body: &str, ret_ty: &str, ret_code: &str) -> (r: String)
    ensures
        r@ == slot_wrapper_text(m@, self_ty@, body@, ret_ty@, ret_code@),
{
    let typed = if m.receiver == Receiver::Absent && m.params.len() > 0 {
        let t = compact_type(m.params[0].ty.as_str());
        if contains_exec(&t, "PyRefMut<") {
            Some(true)
        } else if contains_exec(&t, "PyRef<") {
            Some(false)
        } else {
            None
        }
    } else {
        None
    };
    proof {
        if m.params@.len() > 0 {
            assert(param_views(m.params@)[0] == m.params@[0]@);
        }
        assert(param_views(m.params@).skip(0) =~= param_views(m.params@));
        if typed is Some {
            assert(param_views(m.params@).skip(1) =~= param_views(m.params@).drop_first());
        }
    }
    let skip: usize = if typed.is_some() {
        1
    } else {
        0
    };
    let (params, stmts, args) = slot_parts_code(&m.params, skip, self_ty);
    let f = m.name.as_str();
    let receiver = if typed.is_some() || m.receiver == Receiver::Mutable {
        "__slf: &::rustpython_vm::Py<Self>, "
    } else {
        "&self, "
    };
    let call = match typed {
        Some(true) => {
            let s = cat(cat(cat(cat(String::from_str("{\nlet mut "), m.params[0].name.as_str()), " = ::pyo3::PyRefMut::from_vm_ref(__py, __slf.to_owned());\n"), stmts.as_str()), "let __result: ");
            cat(cat(cat(cat(s, ret_ty), " = { "), body), " };\n__result\n}")
        },
        Some(false) => {
            let s = cat(cat(cat(cat(String::from_str("{\nlet "), m.params[0].name.as_str()), " = ::pyo3::PyRef::from_vm_ref(__py, __slf.to_owned());\n"), stmts.as_str()), "let __result: ");
            cat(cat(cat(cat(s, ret_ty), " = { "), body), " };\n__result\n}")
        },
        None => match m.receiver {
            Receiver::Mutable => {
                let s = cat(cat(cat(String::from_str("{\nlet mut __pyo3_slf"), " = ::pyo3::PyRefMut::from_vm_ref(__py, __slf.to_owned());\n"), stmts.as_str()), "let __result = __pyo3_slf.");
                cat(cat(cat(cat(s, f), "("), args.as_str()), ");\n__result\n}")
            },
            Receiver::Shared => {
                let s = cat(cat(String::from_str("{\n"), stmts.as_str()), "let __result = self.");
                cat(cat(cat(cat(s, f), "("), args.as_str()), ");\n__result\n}")
            },
            Receiver::Absent => {
                let s = cat(cat(String::from_str("{\n"), stmts.as_str()), "let __result = Self::");
                cat(cat(cat(cat(s, f), "("), args.as_str()), ");\n__result\n}")
            },
        },
    };
    let alias = slot_alias(f);
    let s = cat(cat(cat(cat(cat(lines_code(&m.attrs), "#[pymethod(name = \""), alias.as_str()), "\")]\nfn __pyo3_wrap_"), f), m.generics.as_str());
    let s = cat(cat(cat(cat(s, "("), receiver), params.as_str()), "vm: &::rustpython_vm::VirtualMachine) -> ::rustpython_vm::PyResult<::rustpython_vm::PyObjectRef> {\nlet _vm = vm;\nlet __py = ::pyo3::Python::from_vm(_vm);\nlet py = __py;\nlet vm = _vm;\n");
    let s = cat(cat(cat(s, "let __result = "), call.as_str()), ";\n");
    cat(cat(s, ret_code), "\n}\n")
}

// ─── #[pymethods]: getters, setters, __iter__ and __next__ ───────────────────

pub open spec fn getter_call_text(f: Seq<char>, arg: GetterArg) -> Seq<char> {
    "self."@ + f + "("@ + match arg {
        GetterArg::Python => "__py"@,
        GetterArg::Vm => "_vm"@,
        GetterArg::Nothing => Seq::empty(),
    } + ")"@
}

/// How a getter's wrapper turns the getter's value, got by `call`, into a Python object.
pub open spec fn getter_body_text(call: Seq<char>, c: GetterConversion) -> Seq<char> {
    match c {
        GetterConversion::Pyo3Result => "match "@ + call + " { Ok(val) => ::rustpython_vm::convert::ToPyObject::to_pyobject(val, _vm), "@ + "Err(e) => return Err(::pyo3::err::into_vm_err(e)) }"@,
        GetterConversion::RustPythonResult => "match "@ + call + " { Ok(val) => ::rustpython_vm::convert::ToPyObject::to_pyobject(val, _vm), "@ + "Err(e) => return Err(e) }"@,
        GetterConversion::IntoObject => "::rustpython_vm::convert::IntoObject::into_object("@ + call + ")"@,
        GetterConversion::StrToString => "::rustpython_vm::convert::ToPyObject::to_pyobject("@ + call + ".to_string(), _vm)"@,
        GetterConversion::ToPyObject => "::rustpython_vm::convert::ToPyObject::to_pyobject("@ + call + ", _vm)"@,
    }
}

/// The wrapper that `#[pymethods]` registers for the getter `f` that needs one, planned
/// as `p` (see `getter_plan`).
pub open spec fn getter_wrapper_text(f: Seq<char>, g: Seq<char>, arg: GetterArg, c: GetterConversion) -> Seq<char> {
    "#[pygetset(name = \""@ + f + "\")]\nfn _pyo3_getter_"@ + f + g + "(&self, vm: &::rustpython_vm::VirtualMachine) -> ::rustpython_vm::PyResult<::rustpython_vm::PyObjectRef> {\nlet _vm = vm;\nlet __py = ::pyo3::Python::from_vm(_vm);\nlet py = __py;\nlet vm = _vm;\nOk("@ + getter_body_text(getter_call_text(f, arg), c) + ")\n}\n"@
}

/// The wrapper that `#[pymethods]` registers for the setter `f` that needs one: it
/// passes the assigned object and the VM to the setter and ignores a deletion. Where the
/// setter returns a `PyResult` (`returns_result`), the wrapper returns `PyResult<()>` and
/// raises the setter's error with `?`; otherwise it returns nothing.
pub open spec fn setter_wrapper_text(f: Seq<char>, g: Seq<char>, returns_result: bool) -> Seq<char> {
    "#[pygetset(setter, name = \""@ + f + "\")]\nfn _pyo3_setter_"@ + f + g
        + "(&self, value: ::rustpython_vm::function::PySetterValue<::rustpython_vm::PyObjectRef>, vm: &::rustpython_vm::VirtualMachine)"@
        + (if returns_result { " -> ::rustpython_vm::PyResult<()>"@ } else { Seq::empty() })
        + " {\nlet _vm = vm;\nlet __py = ::pyo3::Python::from_vm(_vm);\nlet py = __py;\nlet vm = _vm;\nlet value = match value {\n::rustpython_vm::function::PySetterValue::Assign(v) => v,\n::rustpython_vm::function::PySetterValue::Delete => {\n"@
        + (if returns_result { "return Ok(());\n"@ } else { "return;\n"@ })
        + "}\n};\nSelf::"@ + f + "(self, value, _vm)"@
        + (if returns_result {
            ".map_err(|e: ::pyo3::PyErr| ::pyo3::err::into_vm_err(e))?;\nOk(())\n"@
        } else {
            ";\n"@
        }) + "}\n"@
}

/// The wrapper that `#[pymethods]` registers for `__iter__` (named `f`) of the type `t`:
/// it gives back the object itself where the method returns `&Self` or a `PyRef`
/// (`returns_self`), and otherwise converts what the method returns with `ret`.
pub open spec fn iter_wrapper_text(f: Seq<char>, g: Seq<char>, t: Seq<char>, has_receiver: bool, returns_self: bool, ret: Seq<char>) -> Seq<char> {
    let call = if has_receiver {
        "slf."@ + f + "()"@
    } else {
        "Self::"@ + f + "(slf)"@
    };
    let body = if returns_self {
        "Ok(slf.to_owned().into())"@
    } else {
        "let __result = "@ + call + ";\n"@ + ret
    };
    "#[pymethod(name = \""@ + f + "\")]\nfn __pyo3_wrap_"@ + f + g + "(slf: &::rustpython_vm::Py<"@ + t + ">, vm: &::rustpython_vm::VirtualMachine) -> ::rustpython_vm::PyResult<::rustpython_vm::PyObjectRef> {\nlet _vm = vm;\nlet __py = ::pyo3::Python::from_vm(_vm);\nlet vm = _vm;\n"@ + body + "\n}\n"@
}

/// The wrapper that `#[pymethods]` registers for `__next__` (named `f`) of the type `t`:
/// the method's `Option` becomes the next item or the end of the iteration.
pub open spec fn next_wrapper_text(f: Seq<char>, g: Seq<char>, t: Seq<char>, has_receiver: bool) -> Seq<char> {
    let call = if has_receiver {
        "slf."@ + f + "()"@
    } else {
        "Self::"@ + f + "(slf)"@
    };
    "#[pymethod(name = \""@ + f + "\")]\nfn __pyo3_wrap_"@ + f + g + "(slf: &::rustpython_vm::Py<"@ + t + ">, vm: &::rustpython_vm::VirtualMachine) -> ::rustpython_vm::PyResult<::rustpython_vm::PyObjectRef> {\nlet _vm = vm;\nlet __py = ::pyo3::Python::from_vm(_vm);\nlet slf = slf.to_owned();\nlet mut slf = ::pyo3::PyRefMut::from_vm_ref(__py, slf);\nlet __result = "@ + call + ";\n::pyo3::__next_option_to_result(__result, __py)\n}\n"@
}

/// The wrapper of a getter `fn_name` that needs one, which takes the `Python` token
/// (`py_param`) or the VM (`vm_param`) and returns the rendered type `ret`; the wrapper
/// is planned by `getter_plan`.
pub fn getter_wrapper_code(fn_name: &str, generics: &str, py_param: bool, vm_param: bool, ret: Option<&str>) -> (r: String)
    ensures
        r@ == getter_wrapper_text(
            fn_name@,
            generics@,
            getter_arg_spec(py_param, vm_param),
            getter_conversion_spec(py_param, vm_param, opt_str(ret)),
        ),
{
    let plan = getter_plan(py_param, vm_param, ret);
    let call = cat(cat(String::from_str("self."), fn_name), "(");
    let call = match plan.arg {
        GetterArg::Python => cat(call, "__py"),
        GetterArg::Vm => cat(call, "_vm"),
        GetterArg::Nothing => {
            proof {
                assert(call@ + Seq::<char>::empty() =~= call@);
            }
            call
        },
    };
    let call = cat(call, ")");
    let call = call.as_str();
    let body = match plan.conversion {
        GetterConversion::Pyo3Result => cat(cat(cat(String::from_str("match "), call), " { Ok(val) => ::rustpython_vm::convert::ToPyObject::to_pyobject(val, _vm), "), "Err(e) => return Err(::pyo3::err::into_vm_err(e)) }"),
        GetterConversion::RustPythonResult => cat(cat(cat(String::from_str("match "), call), " { Ok(val) => ::rustpython_vm::convert::ToPyObject::to_pyobject(val, _vm), "), "Err(e) => return Err(e) }"),
        GetterConversion::IntoObject => cat(cat(String::from_str("::rustpython_vm::convert::IntoObject::into_object("), call), ")"),
        GetterConversion::StrToString => cat(cat(String::from_str("::rustpython_vm::convert::ToPyObject::to_pyobject("), call), ".to_string(), _vm)"),
        GetterConversion::ToPyObject => cat(cat(String::from_str("::rustpython_vm::convert::ToPyObject::to_pyobject("), call), ", _vm)"),
    };
    let s = cat(cat(cat(cat(cat(String::from_str("#[pygetset(name = \""), fn_name), "\")]\nfn _pyo3_getter_"), fn_name), generics), "(&self, vm: &::rustpython_vm::VirtualMachine) -> ::rustpython_vm::PyResult<::rustpython_vm::PyObjectRef> {\nlet _vm = vm;\nlet __py = ::pyo3::Python::from_vm(_vm);\nlet py = __py;\nlet vm = _vm;\nOk(");
    cat(cat(s, body.as_str()), ")\n}\n")
}

/// The wrapper of a setter `fn_name` that needs one, whose rendered return type is
/// `ret`; its error is raised where `setter_returns_result` finds a `PyResult`.
pub fn setter_wrapper_code(fn_name: &str, generics: &str, ret: Option<&str>) -> (r: String)
    ensures
        r@ == setter_wrapper_text(fn_name@, generics@, contains(ret_text(opt_str(ret)), "PyResult"@)),
{
    let returns_result = setter_returns_result(ret);
    let s = cat(cat(cat(cat(cat(String::from_str("#[pygetset(setter, name = \""), fn_name), "\")]\nfn _pyo3_setter_"), fn_name), generics), "(&self, value: ::rustpython_vm::function::PySetterValue<::rustpython_vm::PyObjectRef>, vm: &::rustpython_vm::VirtualMachine)");
    let s = if returns_result {
        cat(s, " -> ::rustpython_vm::PyResult<()>")
    } else {
        s
    };
    let s = cat(s, " {\nlet _vm = vm;\nlet __py = ::pyo3::Python::from_vm(_vm);\nlet py = __py;\nlet vm = _vm;\nlet value = match value {\n::rustpython_vm::function::PySetterValue::Assign(v) => v,\n::rustpython_vm::function::PySetterValue::Delete => {\n");
    let s = if returns_result {
        cat(s, "return Ok(());\n")
    } else {
        cat(s, "return;\n")
    };
    let s = cat(cat(cat(s, "}\n};\nSelf::"), fn_name), "(self, value, _vm)");
    let s = if returns_result {
        cat(s, ".map_err(|e: ::pyo3::PyErr| ::pyo3::err::into_vm_err(e))?;\nOk(())\n")
    } else {
        cat(s, ";\n")
    };
    cat(s, "}\n")
}

/// The wrapper of `__iter__` (named `fn_name`) of the type `self_ty`, which takes `self`
/// where `has_receiver`, and returns the rendered type `ret` (`None` where it declares
/// none).
pub fn iter_wrapper_code(fn_name: &str, generics: &str, self_ty: &str, has_receiver: bool, ret: Option<&str>) -> (r: String)
    ensures
        r@ == iter_wrapper_text(
            fn_name@,
            generics@,
            self_ty@,
            has_receiver,
            contains(ret_text(opt_str(ret)), "&Self"@) || contains(ret_text(opt_str(ret)), "PyRef<"@),
            plain_return_text(plain_conversion(opt_str(ret))),
        ),
{
    let body = if iter_returns_self(ret) {
        String::from_str("Ok(slf.to_owned().into())")
    } else {
        let call = if has_receiver {
            cat(cat(String::from_str("slf."), fn_name), "()")
        } else {
            cat(cat(String::from_str("Self::"), fn_name), "(slf)")
        };
        cat(cat(cat(String::from_str("let __result = "), call.as_str()), ";\n"), plain_return_code(plain_return_conversion(ret)))
    };
    let s = cat(cat(cat(cat(cat(cat(cat(String::from_str("#[pymethod(name = \""), fn_name), "\")]\nfn __pyo3_wrap_"), fn_name), generics), "(slf: &::rustpython_vm::Py<"), self_ty), ">, vm: &::rustpython_vm::VirtualMachine) -> ::rustpython_vm::PyResult<::rustpython_vm::PyObjectRef> {\nlet _vm = vm;\nlet __py = ::pyo3::Python::from_vm(_vm);\nlet vm = _vm;\n");
    cat(cat(s, body.as_str()), "\n}\n")
}

/// The wrapper of `__next__` (named `fn_name`) of the type `self_ty`, which takes `self`
/// where `has_receiver`.
pub fn next_wrapper_code(fn_name: &str, generics: &str, self_ty: &str, has_receiver: bool) -> (r: String)
    ensures
        r@ == next_wrapper_text(fn_name@, generics@, self_ty@, has_receiver),
{
    let call = if has_receiver {
        cat(cat(String::from_str("slf."), fn_name), "()")
    } else {
        cat(cat(String::from_str("Self::"), fn_name), "(slf)")
    };
    let s = cat(cat(cat(cat(cat(cat(cat(String::from_str("#[pymethod(name = \""), fn_name), "\")]\nfn __pyo3_wrap_"), fn_name), generics), "(slf: &::rustpython_vm::Py<"), self_ty), ">, vm: &::rustpython_vm::VirtualMachine) -> ::rustpython_vm::PyResult<::rustpython_vm::PyObjectRef> {\nlet _vm = vm;\nlet __py = ::pyo3::Python::from_vm(_vm);\nlet slf = slf.to_owned();\nlet mut slf = ::pyo3::PyRefMut::from_vm_ref(__py, slf);\nlet __result = ");
    cat(cat(s, call.as_str()), ";\n::pyo3::__next_option_to_result(__result, __py)\n}\n")
}

// ─── #[pymodule] ─────────────────────────────────────────────────────────────

/// The items that `#[pymodule]` emits beside the module function `f`, named as `module_symbols`
/// gives them: the exec slot, which hands the new module to `f` (with the `Python` token
/// first where `passes_py`), and the function that builds the module's definition once.
pub open spec fn pymodule_text(
    f: Seq<char>,
    name: Seq<char>,
    def_fn: Seq<char>,
    exec_fn: Seq<char>,
    static_def: Seq<char>,
    passes_py: bool,
) -> Seq<char> {
    "#[doc(hidden)]\nfn "@ + exec_fn + "(__vm: &::rustpython_vm::VirtualMachine, __module: &::rustpython_vm::Py<::rustpython_vm::builtins::PyModule>) -> ::rustpython_vm::PyResult<()> {\nlet __py = ::pyo3::Python::from_vm(__vm);\nlet __bound = ::pyo3::Bound::<::pyo3::types::PyModule>::from_exec_ref(__py, __module);\n"@ + f + (if passes_py {
        "(__py, &__bound)"@
    } else {
        "(&__bound)"@
    }) + ".map_err(|e| ::pyo3::err::into_vm_err(e))\n}\npub fn "@ + def_fn + "(__ctx: &::rustpython_vm::Context) -> &'static ::rustpython_vm::builtins::PyModuleDef {\nstatic "@ + static_def + ": ::std::sync::OnceLock<::pyo3::SyncModuleDefPtr> = ::std::sync::OnceLock::new();\nlet ptr = "@ + static_def + ".get_or_init(|| {\nlet mut __def = Box::new(::rustpython_vm::builtins::PyModuleDef {\nname: __ctx.intern_str(\""@ + name + "\"),\ndoc: None,\nmethods: &[],\nslots: Default::default(),\n});\n__def.slots.exec = Some("@ + exec_fn
        + ");\n::pyo3::SyncModuleDefPtr(Box::into_raw(__def) as *const _)\n});\nunsafe { &*ptr.0 }\n}\n"@
}

/// The items that `#[pymodule]` emits beside the module function `fn_name`, given the
/// text of its attribute, the name in a sibling `#[pyo3(name = ...)]` and its number of
/// parameters; the names are those that `module_symbols` plans.
pub fn pymodule_code(fn_name: &str, attr: &str, sibling: Option<String>, param_count: usize) -> (r: String)
    ensures
        r@ == pymodule_text(
            fn_name@,
            module_name_choice(fn_name@, attr@, opt_view(sibling)),
            fn_name@ + "_module_def"@,
            "__pyo3_"@ + fn_name@ + "_exec"@,
            "__PYO3_"@ + upper_case(fn_name@) + "_DEF"@,
            param_count >= 2,
        ),
{
    let sym = module_symbols(fn_name, attr, sibling, param_count);
    let exec_fn = sym.exec_fn.as_str();
    let static_def = sym.static_def.as_str();
    let s = cat(cat(cat(cat(String::from_str("#[doc(hidden)]\nfn "), exec_fn), "(__vm: &::rustpython_vm::VirtualMachine, __module: &::rustpython_vm::Py<::rustpython_vm::builtins::PyModule>) -> ::rustpython_vm::PyResult<()> {\nlet __py = ::pyo3::Python::from_vm(__vm);\nlet __bound = ::pyo3::Bound::<::pyo3::types::PyModule>::from_exec_ref(__py, __module);\n"), fn_name), if sym.passes_py {
        "(__py, &__bound)"
    } else {
        "(&__bound)"
    });
    let s = cat(cat(cat(cat(s, ".map_err(|e| ::pyo3::err::into_vm_err(e))\n}\npub fn "), sym.module_def_fn.as_str()), "(__ctx: &::rustpython_vm::Context) -> &'static ::rustpython_vm::builtins::PyModuleDef {\nstatic "), static_def);
    let s = cat(cat(cat(cat(s, ": ::std::sync::OnceLock<::pyo3::SyncModuleDefPtr> = ::std::sync::OnceLock::new();\nlet ptr = "), static_def), ".get_or_init(|| {\nlet mut __def = Box::new(::rustpython_vm::builtins::PyModuleDef {\nname: __ctx.intern_str(\""), sym.module_name.as_str());
    cat(cat(cat(s, "\"),\ndoc: None,\nmethods: &[],\nslots: Default::default(),\n});\n__def.slots.exec = Some("), exec_fn), ");\n::pyo3::SyncModuleDefPtr(Box::into_raw(__def) as *const _)\n});\nunsafe { &*ptr.0 }\n}\n")
}

/// The attribute that `#[pyclass]` puts on the enum `id`, and the items it emits after
/// it, given the class options and whether the enum derives `Debug` already. An enum
/// exposes no fields and has no base class.
pub open spec fn pyclass_enum_text(id: Seq<char>, o: ClassOptionsModel, has_debug: bool) -> (Seq<char>, Seq<char>) {
    let py = class_py_name(id, o);
    let inv = "__Pyo3InventoryFor"@ + id;
    let debug = if has_debug {
        Seq::empty()
    } else {
        "impl ::core::fmt::Debug for "@ + id + " {\nfn fmt(&self, f: &mut ::core::fmt::Formatter<'_>) -> ::core::fmt::Result {\nf.debug_struct(\""@ + py + "\").finish_non_exhaustive()\n}\n}\n"@
    };
    let payload = "impl ::rustpython_vm::PyPayload for "@ + id + " {\n#[inline]\nfn class(ctx: &::rustpython_vm::Context) -> &'static ::rustpython_vm::Py<::rustpython_vm::builtins::PyType> {\nlet already_init = <Self as ::rustpython_vm::class::StaticType>::static_cell().get().is_some();\nlet _ = ctx;\n<Self as ::rustpython_vm::class::PyClassImpl>::make_static_type();\nlet typ = <Self as ::rustpython_vm::class::StaticType>::static_type();\nif !already_init {\n"@ + "for __pyo3_items in ::pyo3::inventory::iter::<"@ + inv + "> {\nlet __pyo3_items = ::pyo3::Pyo3ClassInventory::items(__pyo3_items);\n(__pyo3_items.extend_class)(ctx, typ);\ntyp.extend_methods(__pyo3_items.methods, ctx);\n::pyo3::slots::apply_inventory_slots(typ, __pyo3_items.extend_slots);\n}\n::pyo3::slots::fixup_dunder_slots(typ, ctx);\n}\ntyp\n}\n}\n"@;
    let rest = "impl<'py> ::pyo3::IntoPyObject<'py> for "@ + id + " {\ntype Target = ::pyo3::types::PyAny;\ntype Error = ::pyo3::PyErr;\nfn into_pyobject(self, py: ::pyo3::Python<'py>) -> Result<::pyo3::Bound<'py, Self::Target>, Self::Error> {\nlet obj = ::rustpython_vm::convert::ToPyObject::to_pyobject(self, py.vm());\nOk(::pyo3::Bound::from_object(py, obj))\n}\n}\nimpl ::pyo3::PyTypeInfo for "@ + id + " {\nconst NAME: &'static str = \""@ + py + "\";\nconst MODULE: Option<&'static str> = None;\n}\nimpl ::pyo3::Pyo3Accessors for "@ + id + " {\nfn __pyo3_register_accessors(_ctx: &::rustpython_vm::Context, _class: &'static ::rustpython_vm::Py<::rustpython_vm::builtins::PyType>) {}\n}\n"@ + "impl ::pyo3::Pyo3BasePayload for "@ + id + " {\ntype BasePayload = "@ + "::rustpython_vm::builtins::PyBaseObject"@
        + ";\n}\n"@;
    let class_impl = "impl ::rustpython_vm::class::PyClassImpl for "@ + id + " {\nconst TP_FLAGS: ::rustpython_vm::types::PyTypeFlags = "@ + flags_text(o) + ";\nfn impl_extend_class(_ctx: &'static ::rustpython_vm::Context, _class: &'static ::rustpython_vm::Py<::rustpython_vm::builtins::PyType>) {}\nconst METHOD_DEFS: &'static [::rustpython_vm::function::PyMethodDef] = &[];\nfn extend_slots(_slots: &mut ::rustpython_vm::types::PyTypeSlots) {}\n}\n"@;
    let inventory = "#[doc(hidden)]\npub struct "@ + inv + " {\nitems: ::pyo3::Pyo3ClassItems,\n}\nimpl "@ + inv + " {\npub const fn new(items: ::pyo3::Pyo3ClassItems) -> Self {\nSelf { items }\n}\n}\nimpl ::pyo3::Pyo3ClassInventory for "@ + inv + " {\nfn items(&'static self) -> &'static ::pyo3::Pyo3ClassItems {\n&self.items\n}\n}\n::pyo3::inventory::collect!("@ + inv + ");\n"@;
    ("#[::rustpython_vm::pyclass(module = false, name = \""@ + py + "\")]\n"@, debug + payload + rest + class_impl + inventory)
}

/// The attribute that `#[pyclass]` puts on the enum `ident` and the items it emits after
/// it, given the text of the macro's attribute and whether the enum derives `Debug`
/// already.
pub fn pyclass_enum_code(ident: &str, attr: &str, has_debug: bool) -> (r: (String, String))
    ensures
        exists|oks: Seq<bool>| {
            &&& path_answers_ok(attr@, oks)
            &&& r.0@ == pyclass_enum_text(ident@, class_options(attr@, oks), has_debug).0
            &&& r.1@ == pyclass_enum_text(ident@, class_options(attr@, oks), has_debug).1
        },
{
    let opts = parse_pyclass_options(attr);
    let ghost oks = choose|oks: Seq<bool>| oks.len() == split_char(attr@, ',').len() && path_answers_ok(attr@, oks) && opts@ == class_options(attr@, oks);
    let py = opts.python_name(ident);
    let py = py.as_str();
    let inv = cat(String::from_str("__Pyo3InventoryFor"), ident);
    let inv = inv.as_str();
    let debug = if has_debug {
        String::new()
    } else {
        cat(cat(cat(cat(String::from_str("impl ::core::fmt::Debug for "), ident), " {\nfn fmt(&self, f: &mut ::core::fmt::Formatter<'_>) -> ::core::fmt::Result {\nf.debug_struct(\""), py), "\").finish_non_exhaustive()\n}\n}\n")
    };
    let payload = cat(cat(cat(cat(cat(String::from_str("impl ::rustpython_vm::PyPayload for "), ident), " {\n#[inline]\nfn class(ctx: &::rustpython_vm::Context) -> &'static ::rustpython_vm::Py<::rustpython_vm::builtins::PyType> {\nlet already_init = <Self as ::rustpython_vm::class::StaticType>::static_cell().get().is_some();\nlet _ = ctx;\n<Self as ::rustpython_vm::class::PyClassImpl>::make_static_type();\nlet typ = <Self as ::rustpython_vm::class::StaticType>::static_type();\nif !already_init {\n"), "for __pyo3_items in ::pyo3::inventory::iter::<"), inv), "> {\nlet __pyo3_items = ::pyo3::Pyo3ClassInventory::items(__pyo3_items);\n(__pyo3_items.extend_class)(ctx, typ);\ntyp.extend_methods(__pyo3_items.methods, ctx);\n::pyo3::slots::apply_inventory_slots(typ, __pyo3_items.extend_slots);\n}\n::pyo3::slots::fixup_dunder_slots(typ, ctx);\n}\ntyp\n}\n}\n");
    let rest = cat(cat(cat(cat(cat(cat(String::from_str("impl<'py> ::pyo3::IntoPyObject<'py> for "), ident), " {\ntype Target = ::pyo3::types::PyAny;\ntype Error = ::pyo3::PyErr;\nfn into_pyobject(self, py: ::pyo3::Python<'py>) -> Result<::pyo3::Bound<'py, Self::Target>, Self::Error> {\nlet obj = ::rustpython_vm::convert::ToPyObject::to_pyobject(self, py.vm());\nOk(::pyo3::Bound::from_object(py, obj))\n}\n}\nimpl ::pyo3::PyTypeInfo for "), ident), " {\nconst NAME: &'static str = \""), py), "\";\nconst MODULE: Option<&'static str> = None;\n}\nimpl ::pyo3::Pyo3Accessors for ");
    let rest = cat(cat(cat(cat(cat(cat(rest, ident), " {\nfn __pyo3_register_accessors(_ctx: &::rustpython_vm::Context, _class: &'static ::rustpython_vm::Py<::rustpython_vm::builtins::PyType>) {}\n}\n"), "impl ::pyo3::Pyo3BasePayload for "), ident), " {\ntype BasePayload = "), "::rustpython_vm::builtins::PyBaseObject");
    let rest = cat(rest, ";\n}\n");
    let mut flags = String::from_str("(if cfg!(debug_assertions) { ::rustpython_vm::types::PyTypeFlags::DEFAULT.union(::rustpython_vm::types::PyTypeFlags::_CREATED_WITH_FLAGS) } else { ::rustpython_vm::types::PyTypeFlags::DEFAULT })");
    if opts.subclass {
        flags = cat(flags, ".union(::rustpython_vm::types::PyTypeFlags::BASETYPE)");
    }
    if opts.sequence {
        flags = cat(flags, ".union(::rustpython_vm::types::PyTypeFlags::SEQUENCE)");
    }
    proof {
        assert(flags@ =~= flags_text(opts@));
    }
    let class_impl = cat(cat(cat(cat(String::from_str("impl ::rustpython_vm::class::PyClassImpl for "), ident), " {\nconst TP_FLAGS: ::rustpython_vm::types::PyTypeFlags = "), flags.as_str()), ";\nfn impl_extend_class(_ctx: &'static ::rustpython_vm::Context, _class: &'static ::rustpython_vm::Py<::rustpython_vm::builtins::PyType>) {}\nconst METHOD_DEFS: &'static [::rustpython_vm::function::PyMethodDef] = &[];\nfn extend_slots(_slots: &mut ::rustpython_vm::types::PyTypeSlots) {}\n}\n");
    let inventory = cat(cat(cat(cat(String::from_str("#[doc(hidden)]\npub struct "), inv), " {\nitems: ::pyo3::Pyo3ClassItems,\n}\nimpl "), inv), " {\npub const fn new(items: ::pyo3::Pyo3ClassItems) -> Self {\nSelf { items }\n}\n}\nimpl ::pyo3::Pyo3ClassInventory for ");
    let inventory = cat(cat(cat(cat(inventory, inv), " {\nfn items(&'static self) -> &'static ::pyo3::Pyo3ClassItems {\n&self.items\n}\n}\n::pyo3::inventory::collect!("), inv), ");\n");
    let items = cat(cat(cat(cat(debug, payload.as_str()), rest.as_str()), class_impl.as_str()), inventory.as_str());
    let attr = cat(cat(String::from_str("#[::rustpython_vm::pyclass(module = false, name = \""), py), "\")]\n");
    (attr, items)
}

// ─── #[pymethods]: one method ────────────────────────────────────────────────

/// A method of a `#[pymethods]` block with what the macro reads of it: its signature,
/// the names of its attributes, its text with the pyo3 attributes removed, each typed
/// parameter rendered whole and by its type, its rendered return type (`None` where it
/// declares none), and the text of its body and of its return type (`()` where it
/// declares none).
pub struct ImplMethod {
    pub sig: MethodSig,
    pub attr_names: Vec<String>,
    pub item: String,
    pub rendered_params: Vec<(String, String)>,
    pub ret: Option<String>,
    pub body: String,
    pub ret_ty: String,
}

/// The mathematical content of `ImplMethod`.
pub struct ImplMethodModel {
    pub sig: MethodModel,
    pub attr_names: Seq<Seq<char>>,
    pub item: Seq<char>,
    pub rendered_params: Seq<(Seq<char>, Seq<char>)>,
    pub ret: Option<Seq<char>>,
    pub body: Seq<char>,
    pub ret_ty: Seq<char>,
}

impl View for ImplMethod {
    type V = ImplMethodModel;

    open spec fn view(&self) -> ImplMethodModel {
        ImplMethodModel {
            sig: self.sig@,
            attr_names: string_views(self.attr_names@),
            item: self.item@,
            rendered_params: pair_views(self.rendered_params@),
            ret: opt_view(self.ret),
            body: self.body@,
            ret_ty: self.ret_ty@,
        }
    }
}

/// Whether a parameter's type mentions the VM.
pub open spec fn takes_vm(rp: Seq<(Seq<char>, Seq<char>)>) -> bool {
    exists|i: int| 0 <= i < rp.len() && contains(compact(#[trigger] rp[i].1), "VirtualMachine"@)
}

/// Whether a parameter, rendered whole, mentions the `Python` token.
pub open spec fn takes_py(rp: Seq<(Seq<char>, Seq<char>)>) -> bool {
    exists|i: int| 0 <= i < rp.len() && contains(compact(#[trigger] rp[i].0), "Python"@)
}

/// What follows a wrapper: the method itself, kept for the wrapper to call.
pub open spec fn kept_method(item: Seq<char>) -> Seq<char> {
    "#[allow(dead_code)]\n"@ + item + "\n"@
}

/// The method `m` with the body `body`, emitted again beside its wrapper: private, with
/// its generics, inputs and output, without its attributes.
pub open spec fn kept_fn(m: MethodModel, body: Seq<char>) -> Seq<char> {
    "#[allow(dead_code)]\nfn "@ + m.name + m.generics + "("@ + m.inputs + ") "@ + m.output + " "@ + body + "\n"@
}

/// The helper `_pyo3_<name>` emitted beside the wrapper of a plain method: the same
/// signature, and a body that calls the method with the same arguments.
pub open spec fn helper_fn(m: MethodModel) -> Seq<char> {
    "#[allow(dead_code)]\nfn _pyo3_"@ + m.name + m.generics + "("@ + m.inputs + ") "@ + m.output + " {\n"@ + (if m.receiver
        != Receiver::Absent {
        "self."@
    } else {
        "Self::"@
    }) + m.name + "("@ + slot_args_text(m.params) + ")\n}\n"@
}

/// The text that `#[pymethods]` emits inside the impl block for the method `m` of the
/// type `t`, by its role: the method as it is, the method under the attribute of its
/// role, or a wrapper followed by the method; `ret` is the return code of wrappers that
/// convert with `method_return_code`.
pub open spec fn method_item_text(t: Seq<char>, m: ImplMethodModel, ret: Seq<char>) -> Seq<char> {
    let f = m.sig.name;
    let role = method_role_spec(m.attr_names, f);
    let pyo3 = has_pyo3_params_spec(m.rendered_params);
    let vm = takes_vm(m.rendered_params);
    let py = takes_py(m.rendered_params);
    let keep = kept_method(m.item);
    let kfn = kept_fn(m.sig, m.body);
    let g = m.sig.generics;
    match role {
        MethodRole::Constructor | MethodRole::ClassAttr => m.item,
        MethodRole::Getter => if getter_needs_wrapper_spec(vm, pyo3, m.ret) {
            getter_wrapper_text(f, g, getter_arg_spec(py, vm), getter_conversion_spec(py, vm, m.ret)) + kfn
        } else {
            annotated_item_text(role, m.item)
        },
        MethodRole::Setter => if pyo3 || vm {
            setter_wrapper_text(f, g, contains(ret_text(m.ret), "PyResult"@)) + kfn
        } else {
            annotated_item_text(role, m.item)
        },
        MethodRole::StaticMethod | MethodRole::ClassMethod => if method_needs_wrapper_spec(
            m.sig.receiver == Receiver::Mutable,
            m.ret,
            pyo3,
        ) {
            static_method_text(f, g, role == MethodRole::ClassMethod, m.sig.params, ret) + kfn
        } else {
            annotated_item_text(role, m.item)
        },
        MethodRole::IterSlot => iter_wrapper_text(
            f,
            g,
            t,
            m.sig.receiver != Receiver::Absent,
            contains(ret_text(m.ret), "&Self"@) || contains(ret_text(m.ret), "PyRef<"@),
            plain_return_text(plain_conversion(m.ret)),
        ) + keep,
        MethodRole::NextSlot => next_wrapper_text(f, g, t, m.sig.receiver != Receiver::Absent) + keep,
        MethodRole::Slot => slot_wrapper_text(m.sig, t, m.body, m.ret_ty, ret),
        MethodRole::Method => if method_needs_wrapper_spec(m.sig.receiver == Receiver::Mutable, m.ret, pyo3) {
            method_wrapper_text(m.sig, t, ret) + kfn + helper_fn(m.sig)
        } else {
            annotated_item_text(role, m.item)
        },
    }
}

/// The item that `#[pymethods]` emits after the impl block for the method `m` of the
/// type `t`: a slot dunder with a receiver keeps the method in an impl of its own.
pub open spec fn method_outer_text(t: Seq<char>, m: ImplMethodModel) -> Option<Seq<char>> {
    if method_role_spec(m.attr_names, m.sig.name) == MethodRole::Slot && m.sig.receiver != Receiver::Absent {
        Some("impl "@ + t + " {\n"@ + kept_method(m.item) + "}\n"@)
    } else {
        None
    }
}

fn takes_vm_exec(rp: &Vec<(String, String)>) -> (r: bool)
    ensures
        r == takes_vm(pair_views(rp@)),
{
    let mut i: usize = 0;
    while i < rp.len()
        invariant
            i <= rp@.len(),
            forall|k: int| 0 <= k < i ==> !contains(compact(#[trigger] pair_views(rp@)[k].1), "VirtualMachine"@),
        decreases rp@.len() - i,
    {
        let c = compact_type(rp[i].1.as_str());
        assert(pair_views(rp@)[i as int].1 == rp@[i as int].1@);
        if contains_exec(&c, "VirtualMachine") {
            return true;
        }
        i = i + 1;
    }
    false
}

fn takes_py_exec(rp: &Vec<(String, String)>) -> (r: bool)
    ensures
        r == takes_py(pair_views(rp@)),
{
    let mut i: usize = 0;
    while i < rp.len()
        invariant
            i <= rp@.len(),
            forall|k: int| 0 <= k < i ==> !contains(compact(#[trigger] pair_views(rp@)[k].0), "Python"@),
        decreases rp@.len() - i,
    {
        let c = compact_type(rp[i].0.as_str());
        assert(pair_views(rp@)[i as int].0 == rp@[i as int].0@);
        if contains_exec(&c, "Python") {
            return true;
        }
        i = i + 1;
    }
    false
}

fn kept_method_code(item: &str) -> (r: String)
    ensures
        r@ == kept_method(item@),
{
    cat(cat(String::from_str("#[allow(dead_code)]\n"), item), "\n")
}

fn kept_fn_code(m: &MethodSig, body: &str) -> (r: String)
    ensures
        r@ == kept_fn(m@, body@),
{
    let s = cat(cat(cat(cat(String::from_str("#[allow(dead_code)]\nfn "), m.name.as_str()), m.generics.as_str()), "("), m.inputs.as_str());
    cat(cat(cat(cat(cat(s, ") "), m.output.as_str()), " "), body), "\n")
}

fn helper_fn_code(m: &MethodSig) -> (r: String)
    ensures
        r@ == helper_fn(m@),
{
    let (_, _, args) = slot_parts_code(&m.params, 0, "");
    proof {
        assert(param_views(m.params@).skip(0) =~= param_views(m.params@));
    }
    let s = cat(cat(cat(cat(String::from_str("#[allow(dead_code)]\nfn _pyo3_"), m.name.as_str()), m.generics.as_str()), "("), m.inputs.as_str());
    let s = cat(cat(cat(s, ") "), m.output.as_str()), " {\n");
    let s = if m.receiver != Receiver::Absent {
        cat(s, "self.")
    } else {
        cat(s, "Self::")
    };
    cat(cat(cat(cat(s, m.name.as_str()), "("), args.as_str()), ")\n}\n")
}

/// The text that `#[pymethods]` emits inside the impl block for the method `m` of the
/// type `self_ty`, and the item it emits after the block, if any; `ret_code` is what
/// `method_return_code` gives for the method's return type.
pub fn method_item_code(self_ty: &str, m: &ImplMethod, ret_code: &str) -> (r: (String, Option<String>))
    ensures
        r.0@ == method_item_text(self_ty@, m@, ret_code@),
        opt_view(r.1) == method_outer_text(self_ty@, m@),
{
    let f = m.sig.name.as_str();
    let role = method_role(&m.attr_names, f);
    let pyo3 = has_pyo3_params(&m.rendered_params);
    let vm = takes_vm_exec(&m.rendered_params);
    let py = takes_py_exec(&m.rendered_params);
    let ret: Option<&str> = match &m.ret {
        Some(t) => Some(t.as_str()),
        None => None,
    };
    assert(opt_str(ret) == m@.ret);
    let item = m.item.as_str();
    let keep = kept_method_code(item);
    let kfn = kept_fn_code(&m.sig, m.body.as_str());
    let g = m.sig.generics.as_str();
    let text = match role {
        MethodRole::Constructor | MethodRole::ClassAttr => String::from_str(item),
        MethodRole::Getter => if getter_needs_wrapper(vm, pyo3, ret) {
            cat(getter_wrapper_code(f, g, py, vm, ret), kfn.as_str())
        } else {
            annotated_item_code(role, item)
        },
        MethodRole::Setter => if setter_needs_wrapper(pyo3, vm) {
            cat(setter_wrapper_code(f, g, ret), kfn.as_str())
        } else {
            annotated_item_code(role, item)
        },
        MethodRole::StaticMethod | MethodRole::ClassMethod => if method_needs_wrapper(
            m.sig.receiver == Receiver::Mutable,
            ret,
            pyo3,
        ) {
            cat(static_method_code(f, g, role == MethodRole::ClassMethod, &m.sig.params, ret_code), kfn.as_str())
        } else {
            annotated_item_code(role, item)
        },
        MethodRole::IterSlot => cat(
            iter_wrapper_code(f, g, self_ty, m.sig.receiver != Receiver::Absent, ret),
            keep.as_str(),
        ),
        MethodRole::NextSlot => cat(next_wrapper_code(f, g, self_ty, m.sig.receiver != Receiver::Absent), keep.as_str()),
        MethodRole::Slot => slot_wrapper_code(&m.sig, self_ty, m.body.as_str(), m.ret_ty.as_str(), ret_code),
        MethodRole::Method => if method_needs_wrapper(m.sig.receiver == Receiver::Mutable, ret, pyo3) {
            cat(cat(method_wrapper_code(&m.sig, self_ty, ret_code), kfn.as_str()), helper_fn_code(&m.sig).as_str())
        } else {
            annotated_item_code(role, item)
        },
    };
    let outer = if role == MethodRole::Slot && m.sig.receiver != Receiver::Absent {
        Some(cat(cat(cat(cat(String::from_str("impl "), self_ty), " {\n"), keep.as_str()), "}\n"))
    } else {
        None
    };
    (text, outer)
}

pub open spec fn impl_method_views(ms: Seq<ImplMethod>) -> Seq<ImplMethodModel> {
    Seq::new(ms.len(), |i: int| ms[i]@)
}

/// The items emitted after the impl block, in the order of the methods.
pub open spec fn outer_items(t: Seq<char>, ms: Seq<ImplMethodModel>) -> Seq<Seq<char>>
    decreases ms.len(),
{
    if ms.len() == 0 {
        Seq::empty()
    } else {
        match method_outer_text(t, ms.last()) {
            Some(o) => outer_items(t, ms.drop_last()).push(o),
            None => outer_items(t, ms.drop_last()),
        }
    }
}

pub open spec fn is_constructor(m: ImplMethodModel) -> bool {
    method_role_spec(m.attr_names, m.sig.name) == MethodRole::Constructor
}

/// The position of the last `#[new]` method, which the `Constructor` impl is made from.
pub open spec fn last_constructor(ms: Seq<ImplMethodModel>) -> Option<int>
    decreases ms.len(),
{
    if ms.len() == 0 {
        None
    } else if is_constructor(ms.last()) {
        Some(ms.len() - 1)
    } else {
        last_constructor(ms.drop_last())
    }
}

/// The text whose path reading decides the base class of a `#[pymethods]` block: that
/// of the last `#[new]`'s return type (`constructor_base_text`), none without a `#[new]`.
pub open spec fn block_base_text(ms: Seq<ImplMethodModel>) -> Option<Seq<char>> {
    match last_constructor(ms) {
        Some(k) => constructor_base_text(ret_text(ms[k].ret)),
        None => None,
    }
}

proof fn lemma_last_constructor_is_one(ms: Seq<ImplMethodModel>)
    ensures
        last_constructor(ms) matches Some(k) ==> 0 <= k < ms.len() && is_constructor(ms[k]),
    decreases ms.len(),
{
    if ms.len() > 0 && !is_constructor(ms.last()) {
        lemma_last_constructor_is_one(ms.drop_last());
    }
}

/// The `#[new]` methods return types whose base can be read.
pub open spec fn constructors_readable(ms: Seq<ImplMethodModel>) -> bool {
    forall|i: int| 0 <= i < ms.len() && #[trigger] is_constructor(ms[i]) ==> (mentions_self_pair(ret_text(ms[i].ret))
        ==> base_slices_defined(ret_text(ms[i].ret)))
}

/// What `#[pymethods]` emits for the impl block of `t` (last path segment `ident`) with
/// the methods `ms`, whose wrappers return with `rcs`, its other items `others`, kept as
/// they are, the `#[classattr]` constants `consts`, and the signature `sig` of its
/// `#[new]` method, if it has one; `base_ok` says whether that method's base class was
/// accepted as a path.
pub open spec fn pymethods_block_text(
    t: Seq<char>,
    ident: Seq<char>,
    ms: Seq<ImplMethodModel>,
    rcs: Seq<Seq<char>>,
    others: Seq<Seq<char>>,
    consts: Seq<Seq<char>>,
    sig: Option<Seq<NewArgModel>>,
    base_ok: bool,
) -> Seq<char> {
    let items = Seq::new(ms.len(), |i: int| method_item_text(t, ms[i], rcs[i])) + others;
    let ctor = match last_constructor(ms) {
        Some(k) => Some(
            constructor_text(
                t,
                ms[k].sig.name,
                ms[k].sig.params,
                contains(ret_text(ms[k].ret), "PyResult"@),
                mentions_self_pair(ret_text(ms[k].ret)) && base_type_spec(ret_text(ms[k].ret), base_ok) is Some,
                sig,
            ),
        ),
        None => None,
    };
    pymethods_text(t, ident, items, ctor, consts, outer_items(t, ms))
}

/// What `#[pymethods]` emits for the impl block of the type `self_ty` (whose last path
/// segment is `ident`): each method as `method_item_code` makes it, with `ret_codes[i]`
/// the return code that `method_return_code` gives for method `i`, its other items
/// `others` as they are, the `Constructor` impl made from the last `#[new]` method and
/// its signature `sig`, the `#[classattr]` constants and the items emitted after the
/// block.
pub fn pymethods_block_code(
    self_ty: &str,
    ident: &str,
    methods: &Vec<ImplMethod>,
    ret_codes: &Vec<String>,
    others: &Vec<String>,
    consts: &Vec<String>,
    sig: Option<&Vec<NewArg>>,
) -> (r: String)
    requires
        ret_codes@.len() == methods@.len(),
        constructors_readable(impl_method_views(methods@)),
    ensures
        exists|base_ok: bool| #![auto]
            path_answer_ok(block_base_text(impl_method_views(methods@)), base_ok)
            && r@ == pymethods_block_text(
            self_ty@,
            ident@,
            impl_method_views(methods@),
            string_views(ret_codes@),
            string_views(others@),
            string_views(consts@),
            opt_new_args(sig),
            base_ok,
        ),
{
    let ghost ms = impl_method_views(methods@);
    let ghost rcs = string_views(ret_codes@);
    let mut items: Vec<String> = Vec::new();
    let mut outer: Vec<String> = Vec::new();
    let mut last: Option<usize> = None;
    let mut i: usize = 0;
    while i < methods.len()
        invariant
            i <= methods@.len(),
            ret_codes@.len() == methods@.len(),
            ms == impl_method_views(methods@),
            rcs == string_views(ret_codes@),
            string_views(items@) =~= Seq::new(i as nat, |j: int| method_item_text(self_ty@, ms[j], rcs[j])),
            string_views(outer@) == outer_items(self_ty@, ms.take(i as int)),
            match last {
                Some(k) => k < i && last_constructor(ms.take(i as int)) == Some(k as int),
                None => last_constructor(ms.take(i as int)) is None,
            },
        decreases methods@.len() - i,
    {
        let m = &methods[i];
        let (text, extra) = method_item_code(self_ty, m, ret_codes[i].as_str());
        proof {
            let next = ms.take(i + 1);
            assert(next.drop_last() =~= ms.take(i as int));
            assert(next.last() == methods@[i as int]@);
            assert(ms[i as int] == methods@[i as int]@);
            assert(rcs[i as int] == ret_codes@[i as int]@);
        }
        let ghost before_items = items@;
        items.push(text);
        proof {
            assert(string_views(items@) =~= string_views(before_items).push(items@[i as int]@));
        }
        let ghost before_outer = outer@;
        match extra {
            Some(o) => {
                outer.push(o);
                proof {
                    assert(string_views(outer@) =~= string_views(before_outer).push(outer@[outer@.len() - 1]@));
                }
            },
            None => {},
        }
        if method_role(&m.attr_names, m.sig.name.as_str()) == MethodRole::Constructor {
            last = Some(i);
        }
        i = i + 1;
    }
    assert(ms.take(methods@.len() as int) =~= ms);
    let ghost method_items = string_views(items@);
    let mut j: usize = 0;
    while j < others.len()
        invariant
            j <= others@.len(),
            string_views(items@) =~= method_items + string_views(others@).take(j as int),
        decreases others@.len() - j,
    {
        let ghost before = items@;
        items.push(others[j].clone());
        proof {
            assert(string_views(items@) =~= string_views(before).push(others@[j as int]@));
            assert(string_views(others@).take(j + 1) =~= string_views(others@).take(j as int).push(others@[j as int]@));
        }
        j = j + 1;
    }
    assert(string_views(others@).take(others@.len() as int) =~= string_views(others@));
    let mut base_ok = false;
    let ctor: Option<String> = match last {
        Some(k) => {
            let m = &methods[k];
            assert(ms[k as int] == methods@[k as int]@);
            proof {
                lemma_last_constructor_is_one(ms);
            }
            assert(is_constructor(ms[k as int]));
            let ret: Option<&str> = match &m.ret {
                Some(t) => Some(t.as_str()),
                None => None,
            };
            assert(opt_str(ret) == ms[k as int].ret);
            let ok = constructor_base_is_path(ret);
            base_ok = ok;
            Some(constructor_code(self_ty, m.sig.name.as_str(), &m.sig.params, ret, ok, sig))
        },
        None => None,
    };
    let c: Option<&str> = match &ctor {
        Some(t) => Some(t.as_str()),
        None => None,
    };
    let r = pymethods_code(self_ty, ident, &items, c, consts, &outer);
    assert(path_answer_ok(block_base_text(ms), base_ok));
    assert(r@ == pymethods_block_text(
        self_ty@,
        ident@,
        ms,
        rcs,
        string_views(others@),
        string_views(consts@),
        opt_new_args(sig),
        base_ok,
    ));
    r
}


/// A slot dunder defined in a `#[pymethods]` block is callable by its own name once the
/// class is registered: the block registers the dunder's wrapper under the alias
/// `_pyo3_slot_<name>` (the text it emits for the method opens with that registration),
/// and the slot wiring of the class copies the alias back to `<name>`, whatever other
/// names the class holds.
pub proof fn lemma_pymethods_slot_dunders_callable_by_name(
    t: Seq<char>,
    m: ImplMethodModel,
    ret: Seq<char>,
    names: Seq<Seq<char>>,
)
    requires
        method_role_spec(m.attr_names, m.sig.name) == MethodRole::Slot,
    ensures
        ({
            let text = method_item_text(t, m, ret);
            let head = lines_text(m.sig.attrs) + "#[pymethod(name = \""@ + alias_of(m.sig.name) + "\""@;
            head.len() <= text.len() && text.subrange(0, head.len() as int) =~= head
        }),
        defined(names.push(alias_of(m.sig.name)), m.sig.name),
        mirrored_dunders(names.push(alias_of(m.sig.name))).contains(m.sig.name),
{
    lemma_slot_methods_reach_their_slots(m.attr_names, m.sig.name, names);
    reveal_strlit("\"");
    reveal_strlit("\")]\nfn __pyo3_wrap_");
    let text = method_item_text(t, m, ret);
    let head = lines_text(m.sig.attrs) + "#[pymethod(name = \""@ + alias_of(m.sig.name) + "\""@;
    let pre = lines_text(m.sig.attrs) + "#[pymethod(name = \""@ + alias_of(m.sig.name);
    assert(text == slot_wrapper_text(m.sig, t, m.body, m.ret_ty, ret));
    assert(text.len() >= pre.len() + 1);
    assert forall|i: int| 0 <= i < pre.len() implies text[i] == pre[i] by {}
    assert(text[pre.len() as int] == '"');
    assert(text.subrange(0, head.len() as int) =~= head);
}

} // verus!
