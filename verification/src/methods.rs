//! How `#[pymethods]` sorts the items of an impl block and the parameters of a method.
use vstd::prelude::*;
use crate::attrs::opt_view;
use crate::results::{angles_ordered, opt_str, ret_text, return_type_text};
use crate::signature::{compact, compact_type, is_scalar_name, is_scalar_text};
use crate::text::{
    chars_of, contains, contains_exec, ends_with, ends_with_exec, eq_exec, find_char,
    find_char_exec, rfind_char, rfind_char_exec, slice_vec, split_char, split_char_exec,
    starts_with, starts_with_exec, string_from_chars, strip_prefix, strip_prefix_exec,
    strip_suffix, strip_suffix_exec, trim, trim_exec, views,
};
use crate::tokens::{is_path_text, path_answer_ok};

verus! {

/// The dunder methods that RustPython wires to a type slot.
pub open spec fn is_slot_name(n: Seq<char>) -> bool {
    ||| n == "__hash__"@ || n == "__eq__"@ || n == "__ne__"@ || n == "__lt__"@
    ||| n == "__le__"@ || n == "__gt__"@ || n == "__ge__"@ || n == "__richcmp__"@
    ||| n == "__and__"@ || n == "__or__"@ || n == "__sub__"@ || n == "__xor__"@
    ||| n == "__add__"@ || n == "__mul__"@ || n == "__truediv__"@ || n == "__floordiv__"@
    ||| n == "__mod__"@ || n == "__pow__"@ || n == "__lshift__"@ || n == "__rshift__"@
    ||| n == "__matmul__"@ || n == "__neg__"@ || n == "__pos__"@ || n == "__abs__"@
    ||| n == "__invert__"@ || n == "__int__"@ || n == "__float__"@ || n == "__bool__"@
    ||| n == "__iadd__"@ || n == "__isub__"@ || n == "__imul__"@ || n == "__iand__"@
    ||| n == "__ior__"@ || n == "__ixor__"@ || n == "__concat__"@ || n == "__inplace_concat__"@
    ||| n == "__repeat__"@ || n == "__inplace_repeat__"@ || n == "__contains__"@
    ||| n == "__iter__"@ || n == "__next__"@ || n == "__len__"@ || n == "__getitem__"@
    ||| n == "__setitem__"@ || n == "__delitem__"@ || n == "__reversed__"@ || n == "__reduce__"@
    ||| n == "__repr__"@ || n == "__str__"@ || n == "__call__"@
}

/// Whether a method of that name is wired to a RustPython type slot.
pub fn is_rustpython_slot_method(name: &str) -> (r: bool)
    ensures
        r == is_slot_name(name@),
{
    let n = chars_of(name);
    eq_exec(&n, "__hash__") || eq_exec(&n, "__eq__") || eq_exec(&n, "__ne__") || eq_exec(
        &n,
        "__lt__",
    ) || eq_exec(&n, "__le__") || eq_exec(&n, "__gt__") || eq_exec(&n, "__ge__") || eq_exec(
        &n,
        "__richcmp__",
    ) || eq_exec(&n, "__and__") || eq_exec(&n, "__or__") || eq_exec(&n, "__sub__") || eq_exec(
        &n,
        "__xor__",
    ) || eq_exec(&n, "__add__") || eq_exec(&n, "__mul__") || eq_exec(&n, "__truediv__")
        || eq_exec(&n, "__floordiv__") || eq_exec(&n, "__mod__") || eq_exec(&n, "__pow__")
        || eq_exec(&n, "__lshift__") || eq_exec(&n, "__rshift__") || eq_exec(&n, "__matmul__")
        || eq_exec(&n, "__neg__") || eq_exec(&n, "__pos__") || eq_exec(&n, "__abs__") || eq_exec(
        &n,
        "__invert__",
    ) || eq_exec(&n, "__int__") || eq_exec(&n, "__float__") || eq_exec(&n, "__bool__")
        || eq_exec(&n, "__iadd__") || eq_exec(&n, "__isub__") || eq_exec(&n, "__imul__")
        || eq_exec(&n, "__iand__") || eq_exec(&n, "__ior__") || eq_exec(&n, "__ixor__") || eq_exec(
        &n,
        "__concat__",
    ) || eq_exec(&n, "__inplace_concat__") || eq_exec(&n, "__repeat__") || eq_exec(
        &n,
        "__inplace_repeat__",
    ) || eq_exec(&n, "__contains__") || eq_exec(&n, "__iter__") || eq_exec(&n, "__next__")
        || eq_exec(&n, "__len__") || eq_exec(&n, "__getitem__") || eq_exec(&n, "__setitem__")
        || eq_exec(&n, "__delitem__") || eq_exec(&n, "__reversed__") || eq_exec(&n, "__reduce__")
        || eq_exec(&n, "__repr__") || eq_exec(&n, "__str__") || eq_exec(&n, "__call__")
}

/// The attributes that `#[pymethods]` reads and removes from an item.
pub open spec fn is_marker_attr(n: Seq<char>) -> bool {
    n == "new"@ || n == "getter"@ || n == "setter"@ || n == "staticmethod"@ || n == "classmethod"@
        || n == "classattr"@ || n == "pyo3"@
}

/// Whether `#[pymethods]` removes an attribute of that name from the items it emits.
pub fn is_pyo3_marker_attr(name: &str) -> (r: bool)
    ensures
        r == is_marker_attr(name@),
{
    let n = chars_of(name);
    eq_exec(&n, "new") || eq_exec(&n, "getter") || eq_exec(&n, "setter") || eq_exec(
        &n,
        "staticmethod",
    ) || eq_exec(&n, "classmethod") || eq_exec(&n, "classattr") || eq_exec(&n, "pyo3")
}

/// What `#[pymethods]` makes of a method.
#[derive(PartialEq, Eq, Structural, Clone, Copy)]
pub enum MethodRole {
    /// `#[new]`: the constructor.
    Constructor,
    /// `#[classattr]`: kept as it is.
    ClassAttr,
    Getter,
    Setter,
    StaticMethod,
    ClassMethod,
    /// `__iter__`.
    IterSlot,
    /// `__next__`.
    NextSlot,
    /// Another slot dunder, registered under `_pyo3_slot_<name>`.
    Slot,
    /// A plain method.
    Method,
}

/// Whether the attribute names include `name`.
pub open spec fn has_attr_spec(attrs: Seq<Seq<char>>, name: Seq<char>) -> bool {
    exists|i: int| 0 <= i < attrs.len() && attrs[i] == name
}

/// The role of a method with attributes `attrs` and name `name`, the first attribute in
/// the order `new`, `classattr`, `getter`, `setter`, `staticmethod`, `classmethod`
/// deciding, else its name.
pub open spec fn method_role_spec(attrs: Seq<Seq<char>>, name: Seq<char>) -> MethodRole {
    if has_attr_spec(attrs, "new"@) {
        MethodRole::Constructor
    } else if has_attr_spec(attrs, "classattr"@) {
        MethodRole::ClassAttr
    } else if has_attr_spec(attrs, "getter"@) {
        MethodRole::Getter
    } else if has_attr_spec(attrs, "setter"@) {
        MethodRole::Setter
    } else if has_attr_spec(attrs, "staticmethod"@) {
        MethodRole::StaticMethod
    } else if has_attr_spec(attrs, "classmethod"@) {
        MethodRole::ClassMethod
    } else if name == "__iter__"@ {
        MethodRole::IterSlot
    } else if name == "__next__"@ {
        MethodRole::NextSlot
    } else if is_slot_name(name) {
        MethodRole::Slot
    } else {
        MethodRole::Method
    }
}

pub open spec fn string_views(v: Seq<String>) -> Seq<Seq<char>> {
    Seq::new(v.len(), |i: int| v[i]@)
}

fn has_attr(attrs: &Vec<String>, name: &str) -> (r: bool)
    ensures
        r == has_attr_spec(string_views(attrs@), name@),
{
    let mut i: usize = 0;
    while i < attrs.len()
        invariant
            i <= attrs@.len(),
            forall|k: int| 0 <= k < i ==> string_views(attrs@)[k] != name@,
        decreases attrs@.len() - i,
    {
        let a = chars_of(attrs[i].as_str());
        if eq_exec(&a, name) {
            assert(string_views(attrs@)[i as int] == name@);
            return true;
        }
        i = i + 1;
    }
    false
}

/// Sorts a method by the names of its attributes and its own name.
pub fn method_role(attrs: &Vec<String>, name: &str) -> (r: MethodRole)
    ensures
        r == method_role_spec(string_views(attrs@), name@),
{
    if has_attr(attrs, "new") {
        MethodRole::Constructor
    } else if has_attr(attrs, "classattr") {
        MethodRole::ClassAttr
    } else if has_attr(attrs, "getter") {
        MethodRole::Getter
    } else if has_attr(attrs, "setter") {
        MethodRole::Setter
    } else if has_attr(attrs, "staticmethod") {
        MethodRole::StaticMethod
    } else if has_attr(attrs, "classmethod") {
        MethodRole::ClassMethod
    } else {
        let n = chars_of(name);
        if eq_exec(&n, "__iter__") {
            MethodRole::IterSlot
        } else if eq_exec(&n, "__next__") {
            MethodRole::NextSlot
        } else if is_rustpython_slot_method(name) {
            MethodRole::Slot
        } else {
            MethodRole::Method
        }
    }
}

/// Whether one typed parameter, rendered as a whole (`pattern: Type`, spaces kept) and by
/// its type, makes the method take pyo3 types.
pub open spec fn is_pyo3_param(param: Seq<char>, ty: Seq<char>) -> bool {
    ||| contains(param, "Python"@) || contains(param, "Bound"@)
    ||| contains(param, "Py <"@) || contains(param, "Py<"@)
    ||| contains(compact(ty), "&Self"@) || compact(ty) == "Self"@
}

/// Whether one of the typed parameters, each given as (rendered parameter, rendered
/// type), takes pyo3 types.
pub open spec fn has_pyo3_params_spec(params: Seq<(Seq<char>, Seq<char>)>) -> bool {
    exists|i: int| 0 <= i < params.len() && is_pyo3_param(params[i].0, params[i].1)
}

pub open spec fn pair_views(v: Seq<(String, String)>) -> Seq<(Seq<char>, Seq<char>)> {
    Seq::new(v.len(), |i: int| (v[i].0@, v[i].1@))
}

pub fn has_pyo3_params(params: &Vec<(String, String)>) -> (r: bool)
    ensures
        r == has_pyo3_params_spec(pair_views(params@)),
{
    let mut i: usize = 0;
    while i < params.len()
        invariant
            i <= params@.len(),
            forall|k: int|
                0 <= k < i ==> !is_pyo3_param(
                    #[trigger] pair_views(params@)[k].0,
                    pair_views(params@)[k].1,
                ),
        decreases params@.len() - i,
    {
        let p = chars_of(params[i].0.as_str());
        let t = compact_type(params[i].1.as_str());
        let hit = contains_exec(&p, "Python") || contains_exec(&p, "Bound") || contains_exec(
            &p,
            "Py <",
        ) || contains_exec(&p, "Py<") || contains_exec(&t, "&Self") || eq_exec(&t, "Self");
        assert(pair_views(params@)[i as int] == (params@[i as int].0@, params@[i as int].1@));
        if hit {
            return true;
        }
        i = i + 1;
    }
    false
}

/// Whether one of the rendered parameter types mentions `VirtualMachine`.
pub fn has_vm_param(types: &Vec<String>) -> (r: bool)
    ensures
        r == exists|i: int|
            0 <= i < types@.len() && contains(compact(#[trigger] types@[i]@), "VirtualMachine"@),
{
    let mut i: usize = 0;
    while i < types.len()
        invariant
            i <= types@.len(),
            forall|k: int| 0 <= k < i ==> !contains(compact(#[trigger] types@[k]@), "VirtualMachine"@),
        decreases types@.len() - i,
    {
        let t = compact_type(types[i].as_str());
        if contains_exec(&t, "VirtualMachine") {
            return true;
        }
        i = i + 1;
    }
    false
}

/// Whether a `from_py_with` converter, rendered, is `<Bound<'_, _> as PyAnyMethods>::len`,
/// which the macro rewrites to the crate's own path.
pub fn from_py_with_is_len(rendered: &str) -> (r: bool)
    ensures
        r == (contains(compact(rendered@), "Bound<'_,_>"@) && contains(
            compact(rendered@),
            "PyAnyMethods>::len"@,
        )),
{
    let c = compact_type(rendered);
    contains_exec(&c, "Bound<'_,_>") && contains_exec(&c, "PyAnyMethods>::len")
}

/// Whether a default value, given by the last segment of its path, is `None`.
pub fn is_none_default(last_segment: Option<&str>) -> (r: bool)
    ensures
        r == (match last_segment {
            Some(s) => s@ == "None"@,
            None => false,
        }),
{
    match last_segment {
        Some(s) => {
            let v = chars_of(s);
            eq_exec(&v, "None")
        },
        None => false,
    }
}


// ─── Parameters of generated wrappers ────────────────────────────────────────

/// How a wrapper passes an `Option<&..>` parameter on.
#[derive(PartialEq, Eq, Structural, Clone, Copy)]
pub enum OptionalBound {
    /// `Option<&Bound<..>>`: a `Bound` made from a non-`None` object, passed by reference.
    AsRef,
    /// `Option<Bound<..>>` reached through `&`: passed by value.
    Value,
    /// Anything else: a `Py` made from a non-`None` object.
    Py,
}

/// How a wrapper of a slot dunder or of a method takes one of its parameters.
pub enum WrapperParam {
    Python,
    Vm,
    /// `&Self`, read from the other object.
    SelfRef,
    /// A `Bound`, by reference or by value.
    Bound(bool),
    /// `PyRefMut<Self>`.
    PyRefMut,
    /// `PyRef<Self>`.
    PyRef,
    /// `Option<&..>`.
    OptionalRef(OptionalBound),
    /// Another `Option<..>`, with the plan for its content.
    Optional(crate::signature::OptPlan),
    /// A `PathBuf`, made from a Python `str`.
    PathBuf,
    /// Anything else, read with `FromPyObject`, with the text of the type.
    Extract(String),
}

/// The mathematical content of a `WrapperParam`.
pub enum WrapperParamKind {
    Python,
    Vm,
    SelfRef,
    Bound(bool),
    PyRefMut,
    PyRef,
    OptionalRef(OptionalBound),
    Optional(crate::signature::OptKind),
    PathBuf,
    Extract(Seq<char>),
}

impl View for WrapperParam {
    type V = WrapperParamKind;

    open spec fn view(&self) -> WrapperParamKind {
        match self {
            WrapperParam::Python => WrapperParamKind::Python,
            WrapperParam::Vm => WrapperParamKind::Vm,
            WrapperParam::SelfRef => WrapperParamKind::SelfRef,
            WrapperParam::Bound(r) => WrapperParamKind::Bound(*r),
            WrapperParam::PyRefMut => WrapperParamKind::PyRefMut,
            WrapperParam::PyRef => WrapperParamKind::PyRef,
            WrapperParam::OptionalRef(o) => WrapperParamKind::OptionalRef(*o),
            WrapperParam::Optional(o) => WrapperParamKind::Optional(o@),
            WrapperParam::PathBuf => WrapperParamKind::PathBuf,
            WrapperParam::Extract(t) => WrapperParamKind::Extract(t@),
        }
    }
}

/// The text inside `Option<...>`, or the whole text where it is not one.
pub open spec fn option_inner_or_self(t: Seq<char>) -> Seq<char> {
    match crate::signature::option_inner(t) {
        Some(i) => i,
        None => t,
    }
}

pub open spec fn optional_ref_spec(t: Seq<char>) -> OptionalBound {
    let inner = option_inner_or_self(t);
    if contains(inner, "Bound"@) {
        if contains(inner, "&Bound"@) {
            OptionalBound::AsRef
        } else {
            OptionalBound::Value
        }
    } else {
        OptionalBound::Py
    }
}

pub open spec fn wrapper_optional_spec(t: Seq<char>) -> crate::signature::OptKind {
    let inner = option_inner_or_self(t);
    if is_scalar_name(inner) {
        crate::signature::OptKind::Scalar(inner)
    } else if inner == "String"@ {
        crate::signature::OptKind::OwnedString
    } else {
        crate::signature::OptKind::Extract(inner)
    }
}

/// The plan for a parameter of a slot dunder's wrapper (`in_method` false) or of a
/// plain method's wrapper (`in_method` true), from its rendered type.
pub open spec fn wrapper_param_spec(ty: Seq<char>, in_method: bool) -> WrapperParamKind {
    let t = compact(ty);
    if contains(t, "Python"@) {
        WrapperParamKind::Python
    } else if contains(t, "VirtualMachine"@) {
        WrapperParamKind::Vm
    } else if t == "&Self"@ || ends_with(t, "::Self"@) {
        WrapperParamKind::SelfRef
    } else if contains(t, "Bound<"@) {
        WrapperParamKind::Bound(contains(t, "&Bound"@))
    } else if in_method && contains(t, "PyRefMut<"@) {
        WrapperParamKind::PyRefMut
    } else if in_method && contains(t, "PyRef<"@) {
        WrapperParamKind::PyRef
    } else if starts_with(t, "Option<&"@) {
        WrapperParamKind::OptionalRef(optional_ref_spec(t))
    } else if starts_with(t, "Option<"@) && !contains(t, "Bound"@) && !contains(t, "Py<"@) {
        WrapperParamKind::Optional(wrapper_optional_spec(t))
    } else if in_method && contains(t, "PathBuf"@) {
        WrapperParamKind::PathBuf
    } else {
        WrapperParamKind::Extract(t)
    }
}

fn option_inner_or_self_exec(t: &Vec<char>) -> (r: Vec<char>)
    ensures
        r@ == option_inner_or_self(t@),
{
    match strip_prefix_exec(t, "Option<") {
        Some(a) => match strip_suffix_exec(&a, ">") {
            Some(b) => b,
            None => slice_vec(t, 0, t.len()),
        },
        None => slice_vec(t, 0, t.len()),
    }
}

/// Plans how a wrapper takes a parameter whose rendered type is `ty`; `in_method` says
/// whether the wrapper is that of a plain method rather than of a slot dunder.
pub fn wrapper_param(ty: &str, in_method: bool) -> (r: WrapperParam)
    ensures
        r@ == wrapper_param_spec(ty@, in_method),
{
    let t = compact_type(ty);
    if contains_exec(&t, "Python") {
        WrapperParam::Python
    } else if contains_exec(&t, "VirtualMachine") {
        WrapperParam::Vm
    } else if eq_exec(&t, "&Self") || ends_with_exec(&t, "::Self") {
        WrapperParam::SelfRef
    } else if contains_exec(&t, "Bound<") {
        WrapperParam::Bound(contains_exec(&t, "&Bound"))
    } else if in_method && contains_exec(&t, "PyRefMut<") {
        WrapperParam::PyRefMut
    } else if in_method && contains_exec(&t, "PyRef<") {
        WrapperParam::PyRef
    } else if starts_with_exec(&t, "Option<&") {
        let inner = option_inner_or_self_exec(&t);
        let o = if contains_exec(&inner, "Bound") {
            if contains_exec(&inner, "&Bound") {
                OptionalBound::AsRef
            } else {
                OptionalBound::Value
            }
        } else {
            OptionalBound::Py
        };
        WrapperParam::OptionalRef(o)
    } else if starts_with_exec(&t, "Option<") && !contains_exec(&t, "Bound") && !contains_exec(
        &t,
        "Py<",
    ) {
        let inner = option_inner_or_self_exec(&t);
        let o = if is_scalar_text(&inner) {
            crate::signature::OptPlan::Scalar(string_from_chars(&inner))
        } else if eq_exec(&inner, "String") {
            crate::signature::OptPlan::OwnedString
        } else {
            crate::signature::OptPlan::Extract(string_from_chars(&inner))
        };
        WrapperParam::Optional(o)
    } else if in_method && contains_exec(&t, "PathBuf") {
        WrapperParam::PathBuf
    } else {
        WrapperParam::Extract(string_from_chars(&t))
    }
}

/// A first parameter typed `PyRefMut<..>` (`Some(true)`) or `PyRef<..>` (`Some(false)`)
/// stands for the receiver of a slot dunder.
pub fn typed_receiver(first_ty: Option<&str>) -> (r: Option<bool>)
    ensures
        r == (match first_ty {
            Some(t) => if contains(compact(t@), "PyRefMut<"@) {
                Some(true)
            } else if contains(compact(t@), "PyRef<"@) {
                Some(false)
            } else {
                None
            },
            None => None,
        }),
{
    match first_ty {
        Some(t) => {
            let c = compact_type(t);
            if contains_exec(&c, "PyRefMut<") {
                Some(true)
            } else if contains_exec(&c, "PyRef<") {
                Some(false)
            } else {
                None
            }
        },
        None => None,
    }
}

/// The first parameter of a slot dunder, as far as its receiver goes.
pub enum FirstParam {
    /// The dunder takes no parameter.
    Absent,
    /// `self`, `&self` or `&mut self`.
    Receiver { mutable: bool },
    /// A typed parameter, with the text of its type.
    Typed(String),
}

/// How the wrapper of a slot dunder calls the dunder.
#[derive(PartialEq, Eq, Structural, Clone, Copy)]
pub enum SlotCall {
    /// The receiver is a typed `PyRef`/`PyRefMut`: the dunder's body runs inline.
    Inline,
    /// Through a `PyRefMut` made from the object.
    MutReceiver,
    /// As a method of `self`.
    OnSelf,
    /// As an associated function.
    Associated,
}

/// How the wrapper of a slot dunder takes and passes its receiver.
#[derive(PartialEq, Eq, Structural, Clone, Copy)]
pub struct ReceiverPlan {
    /// The typed receiver: `Some(true)` for `PyRefMut`, `Some(false)` for `PyRef`.
    pub typed: Option<bool>,
    /// The dunder needs its object mutably.
    pub mutable: bool,
    /// The wrapper takes the interpreter object (`__slf: &Py<Self>`) rather than `&self`.
    pub takes_object: bool,
    pub call: SlotCall,
    /// The dunder is also kept as a plain method of the type.
    pub keeps_helper: bool,
}

/// The receiver plan of a slot dunder whose first parameter is `first`, a typed one
/// given by the text of its type.
pub open spec fn receiver_plan_spec(first: Option<(bool, Seq<char>)>, receiver_mut: bool) -> ReceiverPlan {
    let typed = match first {
        Some((true, t)) => if contains(compact(t), "PyRefMut<"@) {
            Some(true)
        } else if contains(compact(t), "PyRef<"@) {
            Some(false)
        } else {
            None
        },
        _ => None,
    };
    let has_receiver = typed is Some || first matches Some((false, _));
    let mutable = match typed {
        Some(m) => m,
        None => first matches Some((false, _)) && receiver_mut,
    };
    ReceiverPlan {
        typed,
        mutable,
        takes_object: typed is Some || (first matches Some((false, _)) && receiver_mut),
        call: if typed is Some {
            SlotCall::Inline
        } else if has_receiver && mutable {
            SlotCall::MutReceiver
        } else if has_receiver {
            SlotCall::OnSelf
        } else {
            SlotCall::Associated
        },
        keeps_helper: first matches Some((false, _)),
    }
}

/// The first parameter as the spec reads it: `None` when absent, `(false, _)` for a
/// receiver, `(true, type)` for a typed parameter; and whether a receiver is `&mut`.
pub open spec fn first_param_view(f: FirstParam) -> (Option<(bool, Seq<char>)>, bool) {
    match f {
        FirstParam::Absent => (None, false),
        FirstParam::Receiver { mutable } => (Some((false, Seq::empty())), mutable),
        FirstParam::Typed(t) => (Some((true, t@)), false),
    }
}

/// Plans how the wrapper of a slot dunder takes its receiver and calls the dunder.
pub fn receiver_plan(first: &FirstParam) -> (r: ReceiverPlan)
    ensures
        r == receiver_plan_spec(first_param_view(*first).0, first_param_view(*first).1),
{
    match first {
        FirstParam::Absent => ReceiverPlan {
            typed: None,
            mutable: false,
            takes_object: false,
            call: SlotCall::Associated,
            keeps_helper: false,
        },
        FirstParam::Receiver { mutable } => ReceiverPlan {
            typed: None,
            mutable: *mutable,
            takes_object: *mutable,
            call: if *mutable {
                SlotCall::MutReceiver
            } else {
                SlotCall::OnSelf
            },
            keeps_helper: true,
        },
        FirstParam::Typed(t) => {
            let typed = typed_receiver(Some(t.as_str()));
            match typed {
                Some(m) => ReceiverPlan {
                    typed,
                    mutable: m,
                    takes_object: true,
                    call: SlotCall::Inline,
                    keeps_helper: false,
                },
                None => ReceiverPlan {
                    typed: None,
                    mutable: false,
                    takes_object: false,
                    call: SlotCall::Associated,
                    keeps_helper: false,
                },
            }
        },
    }
}

// ─── Constructors ────────────────────────────────────────────────────────────

/// The first `open` comes before the last `close` when both occur.
pub open spec fn delims_ordered(s: Seq<char>, open: char, close: char) -> bool {
    match find_char(s, open) {
        Some(a) => match rfind_char(s, close) {
            Some(b) => a < b,
            None => true,
        },
        None => true,
    }
}

/// The text between the first `open` and the last `close`.
pub open spec fn between(s: Seq<char>, open: char, close: char) -> Option<Seq<char>> {
    match find_char(s, open) {
        Some(a) => match rfind_char(s, close) {
            Some(b) => Some(s.subrange(a + 1, b)),
            None => None,
        },
        None => None,
    }
}

fn between_exec(s: &Vec<char>, open: char, close: char) -> (r: Option<Vec<char>>)
    requires
        delims_ordered(s@, open, close),
    ensures
        crate::attrs::opt_vview(r) == between(s@, open, close),
{
    match find_char_exec(s, open) {
        Some(a) => match rfind_char_exec(s, close) {
            Some(b) => Some(slice_vec(s, a + 1, b)),
            None => None,
        },
        None => None,
    }
}

/// The type that a `#[new]` returns in: the whole compact return type, or what
/// `PyResult<..>` holds.
pub open spec fn returned_value_text(s: Seq<char>) -> Option<Seq<char>> {
    if contains(s, "PyResult"@) {
        between(s, '<', '>')
    } else {
        Some(s)
    }
}

pub open spec fn mentions_self_pair(i: Seq<char>) -> bool {
    contains(i, "Self,"@) || contains(i, "Self ,"@)
}

/// The slices that reading the base type takes are defined.
pub open spec fn base_slices_defined(s: Seq<char>) -> bool {
    &&& contains(s, "PyResult"@) ==> delims_ordered(s, '<', '>')
    &&& match returned_value_text(s) {
        Some(i) => mentions_self_pair(i) ==> delims_ordered(i, '(', ')'),
        None => true,
    }
}

/// The text that may name the base class of a `#[new]` that returns `(Self, Base)` or
/// `PyResult<(Self, Base)>`: the second element of the pair, trimmed.
pub open spec fn base_candidate(s: Seq<char>) -> Option<Seq<char>> {
    match returned_value_text(s) {
        None => None,
        Some(i) => if !mentions_self_pair(i) {
            None
        } else {
            match between(i, '(', ')') {
                None => None,
                Some(t) => {
                    let parts = split_char(t, ',');
                    if parts.len() == 2 {
                        Some(trim(parts[1]))
                    } else {
                        None
                    }
                },
            }
        },
    }
}

/// The base class: the candidate, where it was accepted as a path (`path_ok`).
pub open spec fn base_type_spec(s: Seq<char>, path_ok: bool) -> Option<Seq<char>> {
    if path_ok {
        base_candidate(s)
    } else {
        None
    }
}

fn base_candidate_of(s: &Vec<char>) -> (r: Option<String>)
    requires
        base_slices_defined(s@),
    ensures
        opt_view(r) == base_candidate(s@),
{
    let inner = if contains_exec(s, "PyResult") {
        between_exec(s, '<', '>')
    } else {
        Some(slice_vec(s, 0, s.len()))
    };
    assert(crate::attrs::opt_vview(inner) == returned_value_text(s@)) by {
        if !contains(s@, "PyResult"@) {
            assert(s@.subrange(0, s@.len() as int) =~= s@);
        }
    }
    match inner {
        None => None,
        Some(i) => {
            if !(contains_exec(&i, "Self,") || contains_exec(&i, "Self ,")) {
                return None;
            }
            match between_exec(&i, '(', ')') {
                None => None,
                Some(t) => {
                    let parts = split_char_exec(&t, ',');
                    if parts.len() == 2 {
                        assert(views(parts@)[1] == parts@[1]@);
                        let base = trim_exec(&parts[1]);
                        Some(string_from_chars(&base))
                    } else {
                        None
                    }
                },
            }
        },
    }
}

/// The text that `constructor_base_is_path` hands to `is_path_text` for the rendered
/// return type `s` of a `#[new]`: the base-class candidate where `s` returns a pair with
/// `Self`, and none otherwise.
pub open spec fn constructor_base_text(s: Seq<char>) -> Option<Seq<char>> {
    if mentions_self_pair(s) {
        base_candidate(s)
    } else {
        None
    }
}

/// Asks `is_path_text` whether the base-class candidate of the rendered return type
/// `ret` of a `#[new]` reads as a path; `false` where there is no candidate. The answer
/// is the one every lexer gives (`path_answer_ok`): a capitalised plain identifier such
/// as `Base` is accepted, and nothing empty is.
pub fn constructor_base_is_path(ret: Option<&str>) -> (r: bool)
    requires
        mentions_self_pair(ret_text(opt_str(ret))) ==> base_slices_defined(ret_text(opt_str(ret))),
    ensures
        path_answer_ok(constructor_base_text(ret_text(opt_str(ret))), r),
{
    let s = return_type_text(ret);
    if !(contains_exec(&s, "Self,") || contains_exec(&s, "Self ,")) {
        return false;
    }
    match base_candidate_of(&s) {
        Some(t) => is_path_text(t.as_str()),
        None => false,
    }
}

fn delims_ordered_exec(s: &Vec<char>, open: char, close: char) -> (r: bool)
    ensures
        r == delims_ordered(s@, open, close),
{
    match find_char_exec(s, open) {
        Some(a) => match rfind_char_exec(s, close) {
            Some(b) => a < b,
            None => true,
        },
        None => true,
    }
}

/// Whether the rendered return type `ret` can be read by the method macros: its first
/// `<` comes before its last `>`, and where it returns `(Self, ..)` the slices that
/// reading the base type takes are defined. Every type that Rust accepts passes.
pub fn return_shape_ok(ret: Option<&str>) -> (r: bool)
    ensures
        r == (angles_ordered(ret_text(opt_str(ret))) && (mentions_self_pair(ret_text(opt_str(ret)))
            ==> base_slices_defined(ret_text(opt_str(ret))))),
{
    let s = return_type_text(ret);
    let angles = delims_ordered_exec(&s, '<', '>');
    if !angles {
        return false;
    }
    if !(contains_exec(&s, "Self,") || contains_exec(&s, "Self ,")) {
        return true;
    }
    let value = if contains_exec(&s, "PyResult") {
        between_exec(&s, '<', '>')
    } else {
        Some(slice_vec(&s, 0, s.len()))
    };
    proof {
        if !contains(s@, "PyResult"@) {
            assert(s@.subrange(0, s@.len() as int) =~= s@);
        }
    }
    match value {
        Some(i) => if contains_exec(&i, "Self,") || contains_exec(&i, "Self ,") {
            delims_ordered_exec(&i, '(', ')')
        } else {
            true
        },
        None => true,
    }
}

/// How `#[new]` builds the object.
pub struct ConstructorPlan {
    /// The constructor returns a `PyResult`, whose error is raised.
    pub returns_result: bool,
    /// The base class's payload, where the constructor returns `(Self, Base)`.
    pub base: Option<String>,
}

/// Plans the `Constructor` impl of a `#[new]` method from its rendered return type,
/// given whether the base-class candidate was accepted as a path
/// (`constructor_base_is_path`).
pub fn constructor_plan_given(ret: Option<&str>, base_is_path: bool) -> (r: ConstructorPlan)
    requires
        mentions_self_pair(ret_text(opt_str(ret))) ==> base_slices_defined(ret_text(opt_str(ret))),
    ensures
        r.returns_result == contains(ret_text(opt_str(ret)), "PyResult"@),
        opt_view(r.base) == (if mentions_self_pair(ret_text(opt_str(ret))) {
            base_type_spec(ret_text(opt_str(ret)), base_is_path)
        } else {
            None
        }),
{
    let s = return_type_text(ret);
    let returns_result = contains_exec(&s, "PyResult");
    let returns_tuple = contains_exec(&s, "Self,") || contains_exec(&s, "Self ,");
    let base = if returns_tuple && base_is_path {
        base_candidate_of(&s)
    } else {
        None
    };
    ConstructorPlan { returns_result, base }
}

/// Plans the `Constructor` impl of a `#[new]` method from its rendered return type,
/// asking `constructor_base_is_path` whether the base class reads as a path; the plan is
/// the one `constructor_plan_given` makes for that answer, which every lexer gives as
/// `path_answer_ok` says (so `(Self, Base)` keeps `Base`).
pub fn constructor_plan(ret: Option<&str>) -> (r: ConstructorPlan)
    requires
        mentions_self_pair(ret_text(opt_str(ret))) ==> base_slices_defined(ret_text(opt_str(ret))),
    ensures
        r.returns_result == contains(ret_text(opt_str(ret)), "PyResult"@),
        exists|ok: bool| #![auto]
            path_answer_ok(constructor_base_text(ret_text(opt_str(ret))), ok)
            && opt_view(r.base) == (if mentions_self_pair(ret_text(opt_str(ret))) {
                base_type_spec(ret_text(opt_str(ret)), ok)
            } else {
                None
            }),
{
    let ok = constructor_base_is_path(ret);
    constructor_plan_given(ret, ok)
}

/// How the wrapper of a `#[new]` with a `#[pyo3(signature = ...)]` binds one argument.
#[derive(PartialEq, Eq, Structural, Clone, Copy, Debug)]
pub enum NewArgBinding {
    /// No default: the argument must be given.
    Required,
    /// Defaults to `None`.
    DefaultNone,
    /// Defaults to the signature's default in its place, converted to a Python object.
    DefaultValue,
}

/// Whether a parameter, by its rendered type, is the `Python` token, which is not an
/// argument of the call.
pub open spec fn takes_python(ty: Seq<char>) -> bool {
    contains(compact(ty), "Python"@)
}

/// The binding a default gives: `None` for no default, `Some(true)` for a default of
/// `None`, `Some(false)` for any other default.
pub open spec fn binding_of(default: Option<bool>) -> NewArgBinding {
    match default {
        None => NewArgBinding::Required,
        Some(true) => NewArgBinding::DefaultNone,
        Some(false) => NewArgBinding::DefaultValue,
    }
}

/// The bindings of the parameters with rendered types `types`, in order, leaving out the
/// `Python` token; the k-th argument takes the k-th of `defaults`, and has none where
/// the signature lists fewer.
pub open spec fn new_arg_bindings(types: Seq<Seq<char>>, defaults: Seq<Option<bool>>) -> Seq<NewArgBinding>
    decreases types.len(),
{
    if types.len() == 0 {
        Seq::empty()
    } else if takes_python(types[0]) {
        new_arg_bindings(types.drop_first(), defaults)
    } else if defaults.len() == 0 {
        seq![NewArgBinding::Required] + new_arg_bindings(types.drop_first(), defaults)
    } else {
        seq![binding_of(defaults[0])] + new_arg_bindings(types.drop_first(), defaults.drop_first())
    }
}

/// The number of bindings that require their argument.
pub open spec fn required_count(b: Seq<NewArgBinding>) -> nat
    decreases b.len(),
{
    if b.len() == 0 {
        0
    } else {
        required_count(b.drop_last()) + if b.last() == NewArgBinding::Required {
            1nat
        } else {
            0nat
        }
    }
}

/// The arguments of a `#[new]` with a signature: how each is bound, and how many of them
/// a call must give (it may give up to all of them).
pub struct NewArgsPlan {
    pub bindings: Vec<NewArgBinding>,
    pub required: usize,
}

/// Plans the arguments of a `#[new]` with a `#[pyo3(signature = ...)]`, from the
/// rendered types of its parameters and the defaults that the signature lists.
pub fn new_args_plan(types: &Vec<String>, defaults: &Vec<Option<bool>>) -> (r: NewArgsPlan)
    ensures
        r.bindings@ == new_arg_bindings(string_views(types@), defaults@),
        r.required as nat == required_count(r.bindings@),
        r.required <= r.bindings@.len(),
{
    let ghost tv = string_views(types@);
    let n = types.len();
    let mut bindings: Vec<NewArgBinding> = Vec::new();
    let mut required: usize = 0;
    let mut i: usize = 0;
    let mut j: usize = 0;
    assert(tv.skip(0) =~= tv);
    assert(defaults@.skip(0) =~= defaults@);
    while i < n
        invariant
            n == types@.len(),
            tv == string_views(types@),
            i <= n,
            j <= defaults@.len(),
            j <= i,
            bindings@.len() <= i,
            bindings@ + new_arg_bindings(tv.skip(i as int), defaults@.skip(j as int))
                == new_arg_bindings(tv, defaults@),
            required as nat == required_count(bindings@),
            required <= bindings@.len(),
        decreases n - i,
    {
        let t = compact_type(types[i].as_str());
        let ghost rest = tv.skip(i as int);
        let ghost ds = defaults@.skip(j as int);
        assert(rest[0] == tv[i as int]);
        assert(rest.drop_first() =~= tv.skip(i + 1));
        assert(tv[i as int] == types@[i as int]@);
        if contains_exec(&t, "Python") {
            i = i + 1;
        } else {
            let b = if j < defaults.len() {
                assert(ds[0] == defaults@[j as int]);
                assert(ds.drop_first() =~= defaults@.skip(j + 1));
                match defaults[j] {
                    None => NewArgBinding::Required,
                    Some(true) => NewArgBinding::DefaultNone,
                    Some(false) => NewArgBinding::DefaultValue,
                }
            } else {
                NewArgBinding::Required
            };
            let ghost before = bindings@;
            bindings.push(b);
            proof {
                assert(bindings@.drop_last() =~= before);
                assert(bindings@ + new_arg_bindings(tv.skip(i + 1), if j < defaults@.len() {
                    defaults@.skip(j + 1)
                } else {
                    defaults@.skip(j as int)
                }) =~= before + new_arg_bindings(rest, ds));
            }
            if b == NewArgBinding::Required {
                required = required + 1;
            }
            if j < defaults.len() {
                j = j + 1;
            }
            i = i + 1;
        }
    }
    assert(tv.skip(n as int) =~= Seq::<Seq<char>>::empty());
    assert(bindings@ + Seq::<NewArgBinding>::empty() =~= bindings@);
    NewArgsPlan { bindings, required }
}

} // verus!
