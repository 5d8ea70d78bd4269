//! When a bound object may be viewed as another marker type.
//!
//! A cast is checked for the marker types that stand for a builtin Python type
//! (`type`, `dict`, `list`, `tuple`, `str`, module, `int`, `float`, `bool`, `set`,
//! `frozenset`, `bytes`, `None`) and for the mapping protocol; the
//! target is recognised by its Rust name. The caller asks the interpreter whether
//! the object's class is a subclass of the builtin type, and hands the answer in.
use vstd::prelude::*;
use crate::text::{chars_of, contains, contains_exec};

verus! {

/// The builtin type that a marker type stands for.
#[derive(Debug, Clone, Copy, PartialEq, Eq, Structural)]
pub enum MarkerKind {
    Type,
    Dict,
    List,
    Tuple,
    Str,
    Module,
    Int,
    Float,
    Bool,
    SetType,
    FrozenSet,
    Bytes,
    NoneType,
}

/// The builtin type that the marker type with Rust name `name` stands for, if any.
pub open spec fn marker_kind_of(name: Seq<char>) -> Option<MarkerKind> {
    if contains(name, "PyType"@) && contains(name, "::types::"@) && !contains(name, "PyTypeError"@) {
        Some(MarkerKind::Type)
    } else if contains(name, "::types::dict::PyDict"@) {
        Some(MarkerKind::Dict)
    } else if contains(name, "::types::list::PyList"@) {
        Some(MarkerKind::List)
    } else if contains(name, "::types::tuple::PyTuple"@) {
        Some(MarkerKind::Tuple)
    } else if contains(name, "::types::string::PyString"@) {
        Some(MarkerKind::Str)
    } else if contains(name, "::types::module::PyModule"@) {
        Some(MarkerKind::Module)
    } else if contains(name, "::types::primitives::PyInt"@) {
        Some(MarkerKind::Int)
    } else if contains(name, "::types::primitives::PyFloat"@) {
        Some(MarkerKind::Float)
    } else if contains(name, "::types::primitives::PyBool"@) {
        Some(MarkerKind::Bool)
    } else if contains(name, "::types::set::PySet"@) {
        Some(MarkerKind::SetType)
    } else if contains(name, "::types::set::PyFrozenSet"@) {
        Some(MarkerKind::FrozenSet)
    } else if contains(name, "::types::bytes::PyBytes"@) {
        Some(MarkerKind::Bytes)
    } else if contains(name, "::types::none::PyNone"@) {
        Some(MarkerKind::NoneType)
    } else {
        None
    }
}

/// Recognises the builtin type a marker type stands for, from its Rust name.
pub fn marker_kind(target: &str) -> (r: Option<MarkerKind>)
    ensures
        r == marker_kind_of(target@),
{
    let s = chars_of(target);
    if contains_exec(&s, "PyType") && contains_exec(&s, "::types::") && !contains_exec(&s, "PyTypeError") {
        Some(MarkerKind::Type)
    } else if contains_exec(&s, "::types::dict::PyDict") {
        Some(MarkerKind::Dict)
    } else if contains_exec(&s, "::types::list::PyList") {
        Some(MarkerKind::List)
    } else if contains_exec(&s, "::types::tuple::PyTuple") {
        Some(MarkerKind::Tuple)
    } else if contains_exec(&s, "::types::string::PyString") {
        Some(MarkerKind::Str)
    } else if contains_exec(&s, "::types::module::PyModule") {
        Some(MarkerKind::Module)
    } else if contains_exec(&s, "::types::primitives::PyInt") {
        Some(MarkerKind::Int)
    } else if contains_exec(&s, "::types::primitives::PyFloat") {
        Some(MarkerKind::Float)
    } else if contains_exec(&s, "::types::primitives::PyBool") {
        Some(MarkerKind::Bool)
    } else if contains_exec(&s, "::types::set::PySet") {
        Some(MarkerKind::SetType)
    } else if contains_exec(&s, "::types::set::PyFrozenSet") {
        Some(MarkerKind::FrozenSet)
    } else if contains_exec(&s, "::types::bytes::PyBytes") {
        Some(MarkerKind::Bytes)
    } else if contains_exec(&s, "::types::none::PyNone") {
        Some(MarkerKind::NoneType)
    } else {
        None
    }
}

/// Whether a cast to the type named `target` is a cast to the mapping protocol, which
/// accepts a dict or any object with an `items` method.
pub fn targets_mapping(target: &str) -> (r: bool)
    ensures
        r == contains(target@, "PyMapping"@),
{
    let s = chars_of(target);
    contains_exec(&s, "PyMapping")
}

/// Why a cast is refused.
#[derive(Debug, Clone, Copy, PartialEq, Eq, Structural)]
pub enum CastError {
    /// The target is the mapping protocol, and the object is neither a dict nor has a
    /// working `items` method ("not a mapping").
    NotAMapping,
    /// The target stands for a builtin type that the object's class does not derive from
    /// ("expected <target>, got <class>").
    WrongType,
}

/// The outcome of `cast` to the type named `name`: for the mapping protocol, success
/// where the object is a mapping; for a marker of a builtin type, success where the
/// object's class derives from it; for any other target, success.
pub open spec fn cast_outcome(name: Seq<char>, is_mapping: bool, derives_from_marker: bool) -> Result<(), CastError> {
    if contains(name, "PyMapping"@) {
        if is_mapping {
            Ok(())
        } else {
            Err(CastError::NotAMapping)
        }
    } else if marker_kind_of(name) is Some && !derives_from_marker {
        Err(CastError::WrongType)
    } else {
        Ok(())
    }
}

/// Decides `cast` to the type named `target`. `is_mapping` says whether the object is
/// a dict or answers `items()` without error (asked only for a mapping target), and
/// `derives_from_marker` whether its class is a subclass of the builtin type that
/// `marker_kind(target)` names (asked only where there is one).
pub fn cast_check(target: &str, is_mapping: bool, derives_from_marker: bool) -> (r: Result<(), CastError>)
    ensures
        r == cast_outcome(target@, is_mapping, derives_from_marker),
{
    if targets_mapping(target) {
        if is_mapping {
            Ok(())
        } else {
            Err(CastError::NotAMapping)
        }
    } else {
        match marker_kind(target) {
            Some(_) => if derives_from_marker {
                Ok(())
            } else {
                Err(CastError::WrongType)
            },
            None => Ok(()),
        }
    }
}

/// Decides `cast_into` to the payload type named `target`: it succeeds where the
/// object holds that payload (`payload_matches`), or where the target is a marker of a
/// builtin type that the object's class derives from.
pub fn can_cast_into(target: &str, payload_matches: bool, derives_from_marker: bool) -> (r: bool)
    ensures
        r == (payload_matches || (marker_kind_of(target@) is Some && derives_from_marker)),
{
    if payload_matches {
        true
    } else {
        match marker_kind(target) {
            Some(_) => derives_from_marker,
            None => false,
        }
    }
}

/// A builtin marker type named by its path in the types module (or, for `PyType`, any
/// `::types::` path to it that is not `PyTypeError`).
pub open spec fn names_builtin_marker(name: Seq<char>) -> bool {
    ||| contains(name, "PyType"@) && contains(name, "::types::"@) && !contains(name, "PyTypeError"@)
    ||| contains(name, "::types::dict::PyDict"@)
    ||| contains(name, "::types::list::PyList"@)
    ||| contains(name, "::types::tuple::PyTuple"@)
    ||| contains(name, "::types::string::PyString"@)
    ||| contains(name, "::types::module::PyModule"@)
    ||| contains(name, "::types::primitives::PyInt"@)
    ||| contains(name, "::types::primitives::PyFloat"@)
    ||| contains(name, "::types::primitives::PyBool"@)
    ||| contains(name, "::types::set::PySet"@)
    ||| contains(name, "::types::set::PyFrozenSet"@)
    ||| contains(name, "::types::bytes::PyBytes"@)
    ||| contains(name, "::types::none::PyNone"@)
}

/// A cast to a marker of a builtin type (str, int, dict, list, ... and the others named
/// by `names_builtin_marker`), other than the mapping protocol, succeeds exactly when the
/// object's class derives from that builtin: an `int` is never handed back as a
/// `PyString`. Whether the object is a mapping has no say there.
pub proof fn lemma_builtin_casts_are_checked(name: Seq<char>, is_mapping: bool, derives: bool)
    requires
        names_builtin_marker(name),
        !contains(name, "PyMapping"@),
    ensures
        !derives ==> cast_outcome(name, is_mapping, derives) == Err::<(), CastError>(CastError::WrongType),
        derives ==> cast_outcome(name, is_mapping, derives) is Ok,
        cast_outcome(name, is_mapping, derives) == cast_outcome(name, !is_mapping, derives),
{
}

/// A cast to a target that is neither the mapping protocol nor a marker of a builtin
/// type is never refused, whatever the object.
pub proof fn lemma_unchecked_targets_always_cast(name: Seq<char>, is_mapping: bool, derives: bool)
    requires
        !contains(name, "PyMapping"@),
        marker_kind_of(name) is None,
    ensures
        cast_outcome(name, is_mapping, derives) is Ok,
{
}

} // verus!
