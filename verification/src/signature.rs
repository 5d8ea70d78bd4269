//! How the attribute macros read a parameter or return type, from the text of the type.
//!
//! The macros render a type to text and drop its spaces; every decision below is made on
//! that compact text.
use vstd::prelude::*;
use crate::attrs::opt_view;
use crate::text::{
    chars_of, contains, contains_exec, ends_with, ends_with_exec, eq_exec, find_char,
    find_char_exec, remove_spaces, remove_spaces_exec, rfind_char, rfind_char_exec, slice_vec,
    split_char, split_char_exec, starts_with, starts_with_exec, string_from_chars, strip_prefix,
    strip_prefix_exec, strip_suffix, strip_suffix_exec, trim, trim_exec, views,
};

verus! {

/// A rendered type with its spaces dropped.
pub open spec fn compact(s: Seq<char>) -> Seq<char> {
    remove_spaces(s)
}

/// Drops the spaces of a rendered type.
pub fn compact_type(s: &str) -> (r: Vec<char>)
    ensures
        r@ == compact(s@),
{
    let v = chars_of(s);
    remove_spaces_exec(&v)
}

pub open spec fn is_signed_name(t: Seq<char>) -> bool {
    t == "i8"@ || t == "i16"@ || t == "i32"@ || t == "i64"@
}

pub open spec fn is_unsigned_name(t: Seq<char>) -> bool {
    t == "u8"@ || t == "u16"@ || t == "u32"@ || t == "u64"@ || t == "usize"@
}

pub open spec fn is_float_name(t: Seq<char>) -> bool {
    t == "f32"@ || t == "f64"@
}

/// The scalar types that a Python object converts to with `try_into_value`.
pub open spec fn is_scalar_name(t: Seq<char>) -> bool {
    is_signed_name(t) || is_unsigned_name(t) || is_float_name(t) || t == "bool"@
}

fn is_signed_exec(t: &Vec<char>) -> (r: bool)
    ensures
        r == is_signed_name(t@),
{
    eq_exec(t, "i8") || eq_exec(t, "i16") || eq_exec(t, "i32") || eq_exec(t, "i64")
}

fn is_unsigned_exec(t: &Vec<char>) -> (r: bool)
    ensures
        r == is_unsigned_name(t@),
{
    eq_exec(t, "u8") || eq_exec(t, "u16") || eq_exec(t, "u32") || eq_exec(t, "u64") || eq_exec(
        t,
        "usize",
    )
}

fn is_float_exec(t: &Vec<char>) -> (r: bool)
    ensures
        r == is_float_name(t@),
{
    eq_exec(t, "f32") || eq_exec(t, "f64")
}

pub fn is_scalar_text(t: &Vec<char>) -> (r: bool)
    ensures
        r == is_scalar_name(t@),
{
    is_signed_exec(t) || is_unsigned_exec(t) || is_float_exec(t) || eq_exec(t, "bool")
}

// ─── Lifetimes ────────────────────────────────────────────────────────────────

pub open spec fn is_lifetime_char(c: char) -> bool {
    ('a' <= c && c <= 'z') || ('0' <= c && c <= '9') || c == '_'
}

/// The number of lifetime-name characters at the front of `s`.
pub open spec fn lifetime_name_len(s: Seq<char>) -> nat
    decreases s.len(),
{
    if s.len() > 0 && is_lifetime_char(s[0]) {
        1 + lifetime_name_len(s.drop_first())
    } else {
        0
    }
}

/// `s` without a leading lifetime `'name` and the whitespace after it.
pub open spec fn strip_lifetime(s: Seq<char>) -> Seq<char> {
    if s.len() > 0 && s[0] == '\'' {
        crate::text::trim_start(s.skip((1 + lifetime_name_len(s.drop_first())) as int))
    } else {
        s
    }
}

proof fn lemma_lifetime_len(s: Seq<char>, k: int)
    requires
        0 <= k <= s.len(),
        forall|i: int| 0 <= i < k ==> is_lifetime_char(s[i]),
        k == s.len() || !is_lifetime_char(s[k]),
    ensures
        lifetime_name_len(s) == k,
    decreases k,
{
    if k > 0 {
        lemma_lifetime_len(s.drop_first(), k - 1);
    }
}

/// Drops a leading lifetime such as `'_` or `'py` and the whitespace after it.
pub fn strip_leading_lifetime(s: &str) -> (r: String)
    ensures
        r@ == strip_lifetime(s@),
{
    let v = chars_of(s);
    let r = strip_leading_lifetime_vec(&v);
    string_from_chars(&r)
}

fn strip_leading_lifetime_vec(v: &Vec<char>) -> (r: Vec<char>)
    ensures
        r@ == strip_lifetime(v@),
{
    if v.len() == 0 || v[0] != '\'' {
        return slice_vec(v, 0, v.len());
    }
    let n = v.len();
    let mut k: usize = 1;
    while k < n && (('a' <= v[k] && v[k] <= 'z') || ('0' <= v[k] && v[k] <= '9') || v[k] == '_')
        invariant
            n == v@.len(),
            1 <= k <= n,
            forall|i: int| 1 <= i < k ==> is_lifetime_char(v@[i]),
        decreases n - k,
    {
        k = k + 1;
    }
    proof {
        let d = v@.drop_first();
        lemma_lifetime_len(d, k - 1);
    }
    let rest = slice_vec(v, k, n);
    assert(rest@ =~= v@.skip(k as int));
    crate::text::trim_start_exec(&rest)
}


// ─── Optional parameters ─────────────────────────────────────────────────────

/// How a parameter of type `Option<T>` is taken from the call's arguments.
pub enum OptPlan {
    /// `Option<&Bound<..>>`: `None` for a missing or `None` argument, else a `Bound`.
    RefBound,
    /// `Option<&Py<..>>`, with the text of the reference's target type.
    RefPy(String),
    /// `Option<&T>` for a `T` read with `FromPyObject`, with the text of `T`.
    RefExtract(String),
    /// A scalar, converted with `try_into_value`, with the text of its type.
    Scalar(String),
    /// `Option<String>`.
    OwnedString,
    /// `Option<Bound<..>>`.
    Bound,
    /// Any other `T`, read with `FromPyObject`, with the text of `T`.
    Extract(String),
}

/// The mathematical content of an `OptPlan`.
pub enum OptKind {
    RefBound,
    RefPy(Seq<char>),
    RefExtract(Seq<char>),
    Scalar(Seq<char>),
    OwnedString,
    Bound,
    Extract(Seq<char>),
}

impl View for OptPlan {
    type V = OptKind;

    open spec fn view(&self) -> OptKind {
        match self {
            OptPlan::RefBound => OptKind::RefBound,
            OptPlan::RefPy(t) => OptKind::RefPy(t@),
            OptPlan::RefExtract(t) => OptKind::RefExtract(t@),
            OptPlan::Scalar(t) => OptKind::Scalar(t@),
            OptPlan::OwnedString => OptKind::OwnedString,
            OptPlan::Bound => OptKind::Bound,
            OptPlan::Extract(t) => OptKind::Extract(t@),
        }
    }
}

/// The plan of `#[pyfunction]` for `Option<inner>`.
pub open spec fn function_opt_kind(inner: Seq<char>) -> OptKind {
    match strip_prefix(inner, "&"@) {
        Some(rest) => if contains(rest, "Bound"@) {
            OptKind::RefBound
        } else if contains(rest, "Py<"@) {
            OptKind::RefPy(rest)
        } else {
            OptKind::RefExtract(rest)
        },
        None => if is_scalar_name(inner) {
            OptKind::Scalar(inner)
        } else if inner == "String"@ {
            OptKind::OwnedString
        } else if contains(inner, "Bound"@) {
            OptKind::Bound
        } else {
            OptKind::Extract(inner)
        },
    }
}

/// The plan of `#[pymethods]` static and class methods for `Option<inner>`.
pub open spec fn method_opt_kind(inner: Seq<char>) -> OptKind {
    if starts_with(inner, "&"@) && contains(inner.skip(1), "Bound"@) {
        OptKind::RefBound
    } else if starts_with(inner, "&"@) && contains(inner.skip(1), "Py<"@) {
        OptKind::RefPy(inner.skip(1))
    } else if is_scalar_name(inner) {
        OptKind::Scalar(inner)
    } else if inner == "String"@ {
        OptKind::OwnedString
    } else if contains(inner, "Bound"@) {
        OptKind::Bound
    } else {
        OptKind::Extract(inner)
    }
}

fn text(v: &Vec<char>) -> (r: String)
    ensures
        r@ == v@,
{
    string_from_chars(v)
}

fn function_opt_plan(inner: &Vec<char>) -> (r: OptPlan)
    ensures
        r@ == function_opt_kind(inner@),
{
    match strip_prefix_exec(inner, "&") {
        Some(rest) => {
            if contains_exec(&rest, "Bound") {
                OptPlan::RefBound
            } else if contains_exec(&rest, "Py<") {
                OptPlan::RefPy(text(&rest))
            } else {
                OptPlan::RefExtract(text(&rest))
            }
        },
        None => {
            if is_scalar_text(inner) {
                OptPlan::Scalar(text(inner))
            } else if eq_exec(inner, "String") {
                OptPlan::OwnedString
            } else if contains_exec(inner, "Bound") {
                OptPlan::Bound
            } else {
                OptPlan::Extract(text(inner))
            }
        },
    }
}

fn method_opt_plan(inner: &Vec<char>) -> (r: OptPlan)
    ensures
        r@ == method_opt_kind(inner@),
{
    if starts_with_exec(inner, "&") {
        proof {
            reveal_strlit("&");
        }
        let rest = slice_vec(inner, 1, inner.len());
        assert(rest@ =~= inner@.skip(1));
        if contains_exec(&rest, "Bound") {
            return OptPlan::RefBound;
        } else if contains_exec(&rest, "Py<") {
            return OptPlan::RefPy(text(&rest));
        }
    }
    if is_scalar_text(inner) {
        OptPlan::Scalar(text(inner))
    } else if eq_exec(inner, "String") {
        OptPlan::OwnedString
    } else if contains_exec(inner, "Bound") {
        OptPlan::Bound
    } else {
        OptPlan::Extract(text(inner))
    }
}

// ─── Parameters ──────────────────────────────────────────────────────────────

/// How a parameter of a `#[pyfunction]` or of a static or class method is taken from
/// the call's arguments.
pub enum ArgPlan {
    /// The `Python` token, made from the running VM.
    Python,
    /// A `#[pyo3(from_py_with = ...)]` converter applied to the argument.
    FromPyWith,
    /// `&Bound<..>`.
    RefBound,
    /// `&Py<..>`, with the text of the reference's target type.
    RefPy(String),
    /// `&T` for a `T` read with `FromPyObject`, with the text of `T`.
    RefExtract(String),
    /// `Option<..>`.
    Optional(OptPlan),
    /// `&str`, borrowed from a Python `str`.
    Str,
    /// `String`.
    OwnedString,
    /// A signed integer, converted at its own type (a value out of its range is refused),
    /// with the text of its type.
    Signed(String),
    /// An unsigned integer, converted at its own type (a value out of its range is
    /// refused), with the text of its type.
    Unsigned(String),
    /// A float, read as `f64` and cast, with the text of its type.
    Float(String),
    /// `bool`.
    Bool,
    /// `Vec<u8>`, copied out of a Python `bytes`.
    Bytes,
    /// `Bound<..>`.
    BoundValue,
    /// Any other type, read with `FromPyObject`, with the text of the type.
    Extract(String),
}

/// The mathematical content of an `ArgPlan`.
pub enum ArgKind {
    Python,
    FromPyWith,
    RefBound,
    RefPy(Seq<char>),
    RefExtract(Seq<char>),
    Optional(OptKind),
    Str,
    OwnedString,
    Signed(Seq<char>),
    Unsigned(Seq<char>),
    Float(Seq<char>),
    Bool,
    Bytes,
    BoundValue,
    Extract(Seq<char>),
}

impl View for ArgPlan {
    type V = ArgKind;

    open spec fn view(&self) -> ArgKind {
        match self {
            ArgPlan::Python => ArgKind::Python,
            ArgPlan::FromPyWith => ArgKind::FromPyWith,
            ArgPlan::RefBound => ArgKind::RefBound,
            ArgPlan::RefPy(t) => ArgKind::RefPy(t@),
            ArgPlan::RefExtract(t) => ArgKind::RefExtract(t@),
            ArgPlan::Optional(o) => ArgKind::Optional(o@),
            ArgPlan::Str => ArgKind::Str,
            ArgPlan::OwnedString => ArgKind::OwnedString,
            ArgPlan::Signed(t) => ArgKind::Signed(t@),
            ArgPlan::Unsigned(t) => ArgKind::Unsigned(t@),
            ArgPlan::Float(t) => ArgKind::Float(t@),
            ArgPlan::Bool => ArgKind::Bool,
            ArgPlan::Bytes => ArgKind::Bytes,
            ArgPlan::BoundValue => ArgKind::BoundValue,
            ArgPlan::Extract(t) => ArgKind::Extract(t@),
        }
    }
}

/// The inner text of `Option<...>`, if the compact type is one.
pub open spec fn option_inner(t: Seq<char>) -> Option<Seq<char>> {
    match strip_prefix(t, "Option<"@) {
        Some(a) => strip_suffix(a, ">"@),
        None => None,
    }
}

/// The plan of `#[pyfunction]` for a parameter whose rendered type is `ty`, where
/// `from_py_with` says whether the parameter carries a `from_py_with` converter; a
/// converter is applied whatever the type.
pub open spec fn function_arg_kind(ty: Seq<char>, from_py_with: bool) -> ArgKind {
    let t = compact(ty);
    if from_py_with {
        ArgKind::FromPyWith
    } else if contains(t, "Python"@) {
        ArgKind::Python
    } else if starts_with(t, "&"@) {
        let inner = strip_lifetime(t.skip(1));
        if contains(inner, "Bound"@) {
            ArgKind::RefBound
        } else if contains(inner, "Py<"@) {
            ArgKind::RefPy(inner)
        } else {
            ArgKind::RefExtract(inner)
        }
    } else if option_inner(t) is Some {
        ArgKind::Optional(function_opt_kind(option_inner(t)->0))
    } else if t == "String"@ {
        ArgKind::OwnedString
    } else if is_signed_name(t) {
        ArgKind::Signed(t)
    } else if is_unsigned_name(t) {
        ArgKind::Unsigned(t)
    } else if is_float_name(t) {
        ArgKind::Float(t)
    } else if t == "bool"@ {
        ArgKind::Bool
    } else if t == "Vec<u8>"@ {
        ArgKind::Bytes
    } else if contains(t, "Bound"@) {
        ArgKind::BoundValue
    } else {
        ArgKind::Extract(t)
    }
}

/// The plan of `#[pymethods]` static and class methods for a parameter whose rendered
/// type is `ty`.
pub open spec fn method_arg_kind(ty: Seq<char>) -> ArgKind {
    let t = compact(ty);
    if contains(t, "Python"@) {
        ArgKind::Python
    } else if starts_with(t, "&"@) && contains(t.skip(1), "Bound"@) {
        ArgKind::RefBound
    } else if starts_with(t, "&"@) && contains(t.skip(1), "Py<"@) {
        ArgKind::RefPy(t.skip(1))
    } else if option_inner(t) is Some {
        ArgKind::Optional(method_opt_kind(option_inner(t)->0))
    } else if t == "&str"@ {
        ArgKind::Str
    } else if t == "String"@ {
        ArgKind::OwnedString
    } else if t == "bool"@ {
        ArgKind::Bool
    } else if is_signed_name(t) {
        ArgKind::Signed(t)
    } else if is_unsigned_name(t) {
        ArgKind::Unsigned(t)
    } else if is_float_name(t) {
        ArgKind::Float(t)
    } else if contains(t, "Bound"@) {
        ArgKind::BoundValue
    } else {
        ArgKind::Extract(t)
    }
}

fn option_inner_exec(t: &Vec<char>) -> (r: Option<Vec<char>>)
    ensures
        crate::attrs::opt_vview(r) == option_inner(t@),
{
    match strip_prefix_exec(t, "Option<") {
        Some(a) => strip_suffix_exec(&a, ">"),
        None => None,
    }
}

/// Plans how `#[pyfunction]` takes a parameter whose rendered type is `ty`.
pub fn function_arg_plan(ty: &str, from_py_with: bool) -> (r: ArgPlan)
    ensures
        r@ == function_arg_kind(ty@, from_py_with),
{
    if from_py_with {
        return ArgPlan::FromPyWith;
    }
    let t = compact_type(ty);
    if contains_exec(&t, "Python") {
        return ArgPlan::Python;
    }
    if starts_with_exec(&t, "&") {
        proof {
            reveal_strlit("&");
        }
        let rest = slice_vec(&t, 1, t.len());
        assert(rest@ =~= t@.skip(1));
        let inner = strip_leading_lifetime_vec(&rest);
        if contains_exec(&inner, "Bound") {
            return ArgPlan::RefBound;
        } else if contains_exec(&inner, "Py<") {
            return ArgPlan::RefPy(text(&inner));
        } else {
            return ArgPlan::RefExtract(text(&inner));
        }
    }
    match option_inner_exec(&t) {
        Some(inner) => {
            return ArgPlan::Optional(function_opt_plan(&inner));
        },
        None => {},
    }
    if eq_exec(&t, "String") {
        ArgPlan::OwnedString
    } else if is_signed_exec(&t) {
        ArgPlan::Signed(text(&t))
    } else if is_unsigned_exec(&t) {
        ArgPlan::Unsigned(text(&t))
    } else if is_float_exec(&t) {
        ArgPlan::Float(text(&t))
    } else if eq_exec(&t, "bool") {
        ArgPlan::Bool
    } else if eq_exec(&t, "Vec<u8>") {
        ArgPlan::Bytes
    } else if contains_exec(&t, "Bound") {
        ArgPlan::BoundValue
    } else {
        ArgPlan::Extract(text(&t))
    }
}

/// Plans how a static or class method of `#[pymethods]` takes a parameter whose
/// rendered type is `ty`.
pub fn method_arg_plan(ty: &str) -> (r: ArgPlan)
    ensures
        r@ == method_arg_kind(ty@),
{
    let t = compact_type(ty);
    if contains_exec(&t, "Python") {
        return ArgPlan::Python;
    }
    if starts_with_exec(&t, "&") {
        proof {
            reveal_strlit("&");
        }
        let rest = slice_vec(&t, 1, t.len());
        assert(rest@ =~= t@.skip(1));
        if contains_exec(&rest, "Bound") {
            return ArgPlan::RefBound;
        } else if contains_exec(&rest, "Py<") {
            return ArgPlan::RefPy(text(&rest));
        }
    }
    match option_inner_exec(&t) {
        Some(inner) => {
            return ArgPlan::Optional(method_opt_plan(&inner));
        },
        None => {},
    }
    if eq_exec(&t, "&str") {
        ArgPlan::Str
    } else if eq_exec(&t, "String") {
        ArgPlan::OwnedString
    } else if eq_exec(&t, "bool") {
        ArgPlan::Bool
    } else if is_signed_exec(&t) {
        ArgPlan::Signed(text(&t))
    } else if is_unsigned_exec(&t) {
        ArgPlan::Unsigned(text(&t))
    } else if is_float_exec(&t) {
        ArgPlan::Float(text(&t))
    } else if contains_exec(&t, "Bound") {
        ArgPlan::BoundValue
    } else {
        ArgPlan::Extract(text(&t))
    }
}

} // verus!
