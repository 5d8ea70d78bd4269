//! Which type slots a class is given, from the names in its attribute dictionary.
//!
//! A class built by `make_class` does not have its dunder methods wired to the type's
//! slots. The wiring looks at the names the class defines: a slot method may also be
//! registered under an alias, `_pyo3_slot_` followed by its dunder name, and such an
//! alias is first copied back to the dunder name.
use vstd::prelude::*;
use vstd::string::StringExecFns;
use crate::methods::{is_slot_name, method_role_spec, MethodRole};

verus! {

/// The dunder names whose alias is copied back before the slots are wired.
pub open spec fn slot_dunders() -> Seq<Seq<char>> {
    seq![
        "__repr__"@, "__str__"@, "__hash__"@, "__iter__"@, "__next__"@, "__eq__"@,
        "__ne__"@, "__lt__"@, "__le__"@, "__gt__"@, "__ge__"@, "__richcmp__"@,
        "__and__"@, "__or__"@, "__sub__"@, "__xor__"@, "__add__"@, "__mul__"@,
        "__truediv__"@, "__floordiv__"@, "__mod__"@, "__pow__"@, "__lshift__"@,
        "__rshift__"@, "__matmul__"@, "__neg__"@, "__pos__"@, "__abs__"@,
        "__invert__"@, "__int__"@, "__float__"@, "__bool__"@, "__iadd__"@,
        "__isub__"@, "__imul__"@, "__iand__"@, "__ior__"@, "__ixor__"@,
        "__contains__"@, "__len__"@, "__getitem__"@, "__setitem__"@, "__delitem__"@,
        "__reversed__"@, "__reduce__"@, "__call__"@, "__concat__"@, "__inplace_concat__"@,
        "__repeat__"@, "__inplace_repeat__"@,
    ]
}

/// The alias under which the slot method for `dunder` may be registered.
pub open spec fn alias_of(dunder: Seq<char>) -> Seq<char> {
    "_pyo3_slot_"@ + dunder
}

/// The names held by a list of strings.
pub open spec fn names_of(attrs: Seq<String>) -> Seq<Seq<char>> {
    attrs.map_values(|s: String| s@)
}

/// The dunder names that are copied from their alias, in the order of `slot_dunders`.
pub open spec fn mirrored_dunders(names: Seq<Seq<char>>) -> Seq<Seq<char>> {
    slot_dunders().filter(|d: Seq<char>| names.contains(alias_of(d)))
}

/// Whether `name` is defined once the aliases have been copied back.
pub open spec fn defined(names: Seq<Seq<char>>, name: Seq<char>) -> bool {
    names.contains(name) || (slot_dunders().contains(name) && names.contains(alias_of(name)))
}

/// What the wiring does to a class.
pub struct SlotPlan {
    /// The dunder names to set from their alias, in order.
    pub mirrored: Vec<String>,
    pub repr: bool,
    pub str: bool,
    pub hash: bool,
    pub iter: bool,
    pub iternext: bool,
    /// Set when any of the six comparison dunders is defined.
    pub richcompare: bool,
    /// Both the sequence and the mapping length slot, from `__len__`.
    pub length: bool,
    /// The mapping subscript slot, from `__getitem__`.
    pub subscript: bool,
    /// The mapping assignment slot, from `__setitem__` or `__delitem__`.
    pub ass_subscript: bool,
    /// The sequence `contains` slot, from `__contains__`.
    pub contains: bool,
    pub call: bool,
}

/// The mathematical content of a `SlotPlan`.
pub struct SlotPlanModel {
    pub mirrored: Seq<Seq<char>>,
    pub repr: bool,
    pub str: bool,
    pub hash: bool,
    pub iter: bool,
    pub iternext: bool,
    pub richcompare: bool,
    pub length: bool,
    pub subscript: bool,
    pub ass_subscript: bool,
    pub contains: bool,
    pub call: bool,
}

impl View for SlotPlan {
    type V = SlotPlanModel;

    open spec fn view(&self) -> SlotPlanModel {
        SlotPlanModel {
            mirrored: names_of(self.mirrored@),
            repr: self.repr,
            str: self.str,
            hash: self.hash,
            iter: self.iter,
            iternext: self.iternext,
            richcompare: self.richcompare,
            length: self.length,
            subscript: self.subscript,
            ass_subscript: self.ass_subscript,
            contains: self.contains,
            call: self.call,
        }
    }
}

/// The wiring for a class whose attribute dictionary holds `names`.
pub open spec fn slot_plan_of(names: Seq<Seq<char>>) -> SlotPlanModel {
    SlotPlanModel {
        mirrored: mirrored_dunders(names),
        repr: defined(names, "__repr__"@),
        str: defined(names, "__str__"@),
        hash: defined(names, "__hash__"@),
        iter: defined(names, "__iter__"@),
        iternext: defined(names, "__next__"@),
        richcompare: defined(names, "__eq__"@) || defined(names, "__ne__"@)
            || defined(names, "__lt__"@) || defined(names, "__le__"@)
            || defined(names, "__gt__"@) || defined(names, "__ge__"@),
        length: defined(names, "__len__"@),
        subscript: defined(names, "__getitem__"@),
        ass_subscript: defined(names, "__setitem__"@) || defined(names, "__delitem__"@),
        contains: defined(names, "__contains__"@),
        call: defined(names, "__call__"@),
    }
}

fn slot_dunder_names() -> (v: Vec<&'static str>)
    ensures
        v@.len() == slot_dunders().len(),
        forall|i: int| 0 <= i < v@.len() ==> #[trigger] v@[i]@ == slot_dunders()[i],
{
    let mut v: Vec<&'static str> = Vec::new();
    v.push("__repr__");
    v.push("__str__");
    v.push("__hash__");
    v.push("__iter__");
    v.push("__next__");
    v.push("__eq__");
    v.push("__ne__");
    v.push("__lt__");
    v.push("__le__");
    v.push("__gt__");
    v.push("__ge__");
    v.push("__richcmp__");
    v.push("__and__");
    v.push("__or__");
    v.push("__sub__");
    v.push("__xor__");
    v.push("__add__");
    v.push("__mul__");
    v.push("__truediv__");
    v.push("__floordiv__");
    v.push("__mod__");
    v.push("__pow__");
    v.push("__lshift__");
    v.push("__rshift__");
    v.push("__matmul__");
    v.push("__neg__");
    v.push("__pos__");
    v.push("__abs__");
    v.push("__invert__");
    v.push("__int__");
    v.push("__float__");
    v.push("__bool__");
    v.push("__iadd__");
    v.push("__isub__");
    v.push("__imul__");
    v.push("__iand__");
    v.push("__ior__");
    v.push("__ixor__");
    v.push("__contains__");
    v.push("__len__");
    v.push("__getitem__");
    v.push("__setitem__");
    v.push("__delitem__");
    v.push("__reversed__");
    v.push("__reduce__");
    v.push("__call__");
    v.push("__concat__");
    v.push("__inplace_concat__");
    v.push("__repeat__");
    v.push("__inplace_repeat__");
    assert(v@.map_values(|s: &str| s@) =~= slot_dunders());
    assert forall|i: int| 0 <= i < v@.len() implies #[trigger] v@[i]@ == slot_dunders()[i] by {
        assert(v@.map_values(|s: &str| s@)[i] == v@[i]@);
    }
    v
}

/// Whether one of `attrs` equals `name`.
fn has_name(attrs: &Vec<String>, name: &String) -> (r: bool)
    ensures
        r == names_of(attrs@).contains(name@),
{
    let n = attrs.len();
    let mut i: usize = 0;
    while i < n
        invariant
            n == attrs@.len(),
            i <= n,
            forall|j: int| 0 <= j < i ==> attrs@[j]@ != name@,
        decreases n - i,
    {
        if attrs[i] == *name {
            assert(names_of(attrs@)[i as int] == name@);
            return true;
        }
        i = i + 1;
    }
    proof {
        if names_of(attrs@).contains(name@) {
            let k = choose|k: int| 0 <= k < names_of(attrs@).len() && names_of(attrs@)[k] == name@;
            assert(attrs@[k]@ == name@);
        }
    }
    false
}

/// The name under which `#[pymethods]` registers the slot method `dunder`.
pub fn slot_alias(dunder: &str) -> (r: String)
    ensures
        r@ == alias_of(dunder@),
{
    String::from_str("_pyo3_slot_").concat(dunder)
}

/// Whether `name` is among `attrs` itself or by its alias.
fn defined_exec(attrs: &Vec<String>, name: &str) -> (r: bool)
    ensures
        r == (names_of(attrs@).contains(name@) || names_of(attrs@).contains(alias_of(name@))),
{
    let own = name.to_owned();
    if has_name(attrs, &own) {
        true
    } else {
        let a = slot_alias(name);
        has_name(attrs, &a)
    }
}


/// The dunder names that the wiring looks at.
pub open spec fn wired_dunders() -> Seq<Seq<char>> {
    seq![
        "__repr__"@, "__str__"@, "__hash__"@, "__iter__"@, "__next__"@, "__eq__"@,
        "__ne__"@, "__lt__"@, "__le__"@, "__gt__"@, "__ge__"@, "__len__"@,
        "__getitem__"@, "__setitem__"@, "__delitem__"@, "__contains__"@, "__call__"@,
    ]
}

/// Two plans wire the same slots (they may copy different aliases).
pub open spec fn same_wiring(a: SlotPlanModel, b: SlotPlanModel) -> bool {
    &&& a.repr == b.repr
    &&& a.str == b.str
    &&& a.hash == b.hash
    &&& a.iter == b.iter
    &&& a.iternext == b.iternext
    &&& a.richcompare == b.richcompare
    &&& a.length == b.length
    &&& a.subscript == b.subscript
    &&& a.ass_subscript == b.ass_subscript
    &&& a.contains == b.contains
    &&& a.call == b.call
}

/// Each wired name starts with two underscores, and lies among the aliased names.
proof fn lemma_wired_dunders_shape()
    ensures
        forall|k: int| 0 <= k < wired_dunders().len() ==> {
            let w = #[trigger] wired_dunders()[k];
            &&& w.len() > 2
            &&& w[0] == '_' && w[1] == '_'
            &&& slot_dunders().contains(w)
        },
        forall|x: Seq<char>| #![trigger alias_of(x)] alias_of(x).len() > 2 && alias_of(x)[1] == 'p',
{
    reveal_strlit("_pyo3_slot_");
    reveal_strlit("__repr__");
    reveal_strlit("__str__");
    reveal_strlit("__hash__");
    reveal_strlit("__iter__");
    reveal_strlit("__next__");
    reveal_strlit("__eq__");
    reveal_strlit("__ne__");
    reveal_strlit("__lt__");
    reveal_strlit("__le__");
    reveal_strlit("__gt__");
    reveal_strlit("__ge__");
    reveal_strlit("__len__");
    reveal_strlit("__getitem__");
    reveal_strlit("__setitem__");
    reveal_strlit("__delitem__");
    reveal_strlit("__contains__");
    reveal_strlit("__call__");
    assert(slot_dunders()[0] == "__repr__"@);
    assert(slot_dunders()[1] == "__str__"@);
    assert(slot_dunders()[2] == "__hash__"@);
    assert(slot_dunders()[3] == "__iter__"@);
    assert(slot_dunders()[4] == "__next__"@);
    assert(slot_dunders()[5] == "__eq__"@);
    assert(slot_dunders()[6] == "__ne__"@);
    assert(slot_dunders()[7] == "__lt__"@);
    assert(slot_dunders()[8] == "__le__"@);
    assert(slot_dunders()[9] == "__gt__"@);
    assert(slot_dunders()[10] == "__ge__"@);
    assert(slot_dunders()[38] == "__contains__"@);
    assert(slot_dunders()[39] == "__len__"@);
    assert(slot_dunders()[40] == "__getitem__"@);
    assert(slot_dunders()[41] == "__setitem__"@);
    assert(slot_dunders()[42] == "__delitem__"@);
    assert(slot_dunders()[45] == "__call__"@);
    assert forall|k: int| 0 <= k < wired_dunders().len() implies {
        let w = #[trigger] wired_dunders()[k];
        &&& w.len() > 2
        &&& w[0] == '_' && w[1] == '_'
        &&& slot_dunders().contains(w)
    } by {
        if k == 0 {
        } else if k == 1 {
        } else if k == 2 {
        } else if k == 3 {
        } else if k == 4 {
        } else if k == 5 {
        } else if k == 6 {
        } else if k == 7 {
        } else if k == 8 {
        } else if k == 9 {
        } else if k == 10 {
        } else if k == 11 {
        } else if k == 12 {
        } else if k == 13 {
        } else if k == 14 {
        } else if k == 15 {
        } else {
        }
    }
    assert forall|x: Seq<char>| #![trigger alias_of(x)] alias_of(x).len() > 2 && alias_of(x)[1] == 'p' by {
        assert(alias_of(x)[1] == "_pyo3_slot_"@[1]);
    }
}

/// For a wired name `n` and a slot dunder `d`, adding `d`'s alias to the names defines
/// `n` exactly when adding `d` itself does.
proof fn lemma_alias_defines_like_dunder(names: Seq<Seq<char>>, d: Seq<char>, n: Seq<char>)
    requires
        wired_dunders().contains(d),
        wired_dunders().contains(n),
    ensures
        defined(names.push(alias_of(d)), n) == defined(names.push(d), n),
{
    lemma_wired_dunders_shape();
    let kd = choose|k: int| 0 <= k < wired_dunders().len() && wired_dunders()[k] == d;
    let kn = choose|k: int| 0 <= k < wired_dunders().len() && wired_dunders()[k] == n;
    assert(wired_dunders()[kd] == d);
    assert(wired_dunders()[kn] == n);
    assert(alias_of(d)[1] == 'p');
    assert(alias_of(n)[1] == 'p');
    let a = names.push(alias_of(d));
    let b = names.push(d);
    assert(alias_of(d) != n);
    assert(d != alias_of(n));
    assert(a.contains(n) == (names.contains(n) || alias_of(d) == n)) by {
        if a.contains(n) {
            let j = choose|j: int| 0 <= j < a.len() && a[j] == n;
            if j < names.len() {
                assert(names[j] == n);
            }
        }
        if names.contains(n) {
            let j = choose|j: int| 0 <= j < names.len() && names[j] == n;
            assert(a[j] == n);
        }
    }
    assert(b.contains(n) == (names.contains(n) || d == n)) by {
        if b.contains(n) {
            let j = choose|j: int| 0 <= j < b.len() && b[j] == n;
            if j < names.len() {
                assert(names[j] == n);
            }
        }
        if names.contains(n) {
            let j = choose|j: int| 0 <= j < names.len() && names[j] == n;
            assert(b[j] == n);
        }
        if d == n {
            assert(b[names.len() as int] == n);
        }
    }
    assert(a.contains(alias_of(n)) == (names.contains(alias_of(n)) || alias_of(d) == alias_of(n))) by {
        if a.contains(alias_of(n)) {
            let j = choose|j: int| 0 <= j < a.len() && a[j] == alias_of(n);
            if j < names.len() {
                assert(names[j] == alias_of(n));
            }
        }
        if names.contains(alias_of(n)) {
            let j = choose|j: int| 0 <= j < names.len() && names[j] == alias_of(n);
            assert(a[j] == alias_of(n));
        }
        if alias_of(d) == alias_of(n) {
            assert(a[names.len() as int] == alias_of(n));
        }
    }
    assert(b.contains(alias_of(n)) == names.contains(alias_of(n))) by {
        if b.contains(alias_of(n)) {
            let j = choose|j: int| 0 <= j < b.len() && b[j] == alias_of(n);
            if j < names.len() {
                assert(names[j] == alias_of(n));
            }
        }
        if names.contains(alias_of(n)) {
            let j = choose|j: int| 0 <= j < names.len() && names[j] == alias_of(n);
            assert(b[j] == alias_of(n));
        }
    }
    if alias_of(d) == alias_of(n) {
        reveal_strlit("_pyo3_slot_");
        assert(d =~= alias_of(d).skip(11));
        assert(n =~= alias_of(n).skip(11));
    }
    if d == n {
        assert(a[names.len() as int] == alias_of(n));
        assert(b[names.len() as int] == n);
    }
}

/// Registering a wired slot method under its alias wires the same slots as registering
/// it under its dunder name: the alias is copied back before the wiring looks.
pub proof fn lemma_alias_wires_like_dunder(names: Seq<Seq<char>>, k: int)
    requires
        0 <= k < wired_dunders().len(),
    ensures
        same_wiring(
            slot_plan_of(names.push(alias_of(wired_dunders()[k]))),
            slot_plan_of(names.push(wired_dunders()[k])),
        ),
{
    let d = wired_dunders()[k];
    assert(wired_dunders().contains(d));
    let w = wired_dunders();
    assert(w[0] == "__repr__"@);
    assert(w[1] == "__str__"@);
    assert(w[2] == "__hash__"@);
    assert(w[3] == "__iter__"@);
    assert(w[4] == "__next__"@);
    assert(w[5] == "__eq__"@);
    assert(w[6] == "__ne__"@);
    assert(w[7] == "__lt__"@);
    assert(w[8] == "__le__"@);
    assert(w[9] == "__gt__"@);
    assert(w[10] == "__ge__"@);
    assert(w[11] == "__len__"@);
    assert(w[12] == "__getitem__"@);
    assert(w[13] == "__setitem__"@);
    assert(w[14] == "__delitem__"@);
    assert(w[15] == "__contains__"@);
    assert(w[16] == "__call__"@);
    assert forall|j: int| 0 <= j < w.len() implies
        defined(names.push(alias_of(d)), #[trigger] w[j]) == defined(names.push(d), w[j]) by {
        assert(w.contains(w[j]));
        lemma_alias_defines_like_dunder(names, d, w[j]);
    }
}

/// Every method name that RustPython wires to a slot is among the names whose alias
/// is copied back.
pub proof fn lemma_slot_names_are_mirrored(name: Seq<char>)
    requires
        is_slot_name(name),
    ensures
        slot_dunders().contains(name),
{
    assert(slot_dunders()[0] == "__repr__"@);
    assert(slot_dunders()[1] == "__str__"@);
    assert(slot_dunders()[2] == "__hash__"@);
    assert(slot_dunders()[3] == "__iter__"@);
    assert(slot_dunders()[4] == "__next__"@);
    assert(slot_dunders()[5] == "__eq__"@);
    assert(slot_dunders()[6] == "__ne__"@);
    assert(slot_dunders()[7] == "__lt__"@);
    assert(slot_dunders()[8] == "__le__"@);
    assert(slot_dunders()[9] == "__gt__"@);
    assert(slot_dunders()[10] == "__ge__"@);
    assert(slot_dunders()[11] == "__richcmp__"@);
    assert(slot_dunders()[12] == "__and__"@);
    assert(slot_dunders()[13] == "__or__"@);
    assert(slot_dunders()[14] == "__sub__"@);
    assert(slot_dunders()[15] == "__xor__"@);
    assert(slot_dunders()[16] == "__add__"@);
    assert(slot_dunders()[17] == "__mul__"@);
    assert(slot_dunders()[18] == "__truediv__"@);
    assert(slot_dunders()[19] == "__floordiv__"@);
    assert(slot_dunders()[20] == "__mod__"@);
    assert(slot_dunders()[21] == "__pow__"@);
    assert(slot_dunders()[22] == "__lshift__"@);
    assert(slot_dunders()[23] == "__rshift__"@);
    assert(slot_dunders()[24] == "__matmul__"@);
    assert(slot_dunders()[25] == "__neg__"@);
    assert(slot_dunders()[26] == "__pos__"@);
    assert(slot_dunders()[27] == "__abs__"@);
    assert(slot_dunders()[28] == "__invert__"@);
    assert(slot_dunders()[29] == "__int__"@);
    assert(slot_dunders()[30] == "__float__"@);
    assert(slot_dunders()[31] == "__bool__"@);
    assert(slot_dunders()[32] == "__iadd__"@);
    assert(slot_dunders()[33] == "__isub__"@);
    assert(slot_dunders()[34] == "__imul__"@);
    assert(slot_dunders()[35] == "__iand__"@);
    assert(slot_dunders()[36] == "__ior__"@);
    assert(slot_dunders()[37] == "__ixor__"@);
    assert(slot_dunders()[38] == "__contains__"@);
    assert(slot_dunders()[39] == "__len__"@);
    assert(slot_dunders()[40] == "__getitem__"@);
    assert(slot_dunders()[41] == "__setitem__"@);
    assert(slot_dunders()[42] == "__delitem__"@);
    assert(slot_dunders()[43] == "__reversed__"@);
    assert(slot_dunders()[44] == "__reduce__"@);
    assert(slot_dunders()[45] == "__call__"@);
    assert(slot_dunders()[46] == "__concat__"@);
    assert(slot_dunders()[47] == "__inplace_concat__"@);
    assert(slot_dunders()[48] == "__repeat__"@);
    assert(slot_dunders()[49] == "__inplace_repeat__"@);
}

/// A method that `#[pymethods]` registers under its alias (role `Slot`) is defined under
/// its dunder name once the runtime has copied the aliases back, and the copy is made,
/// for every name whose alias the runtime copies back.
pub proof fn lemma_slot_methods_reach_their_slots(
    attrs: Seq<Seq<char>>,
    name: Seq<char>,
    names: Seq<Seq<char>>,
)
    requires
        method_role_spec(attrs, name) == MethodRole::Slot,
    ensures
        defined(names.push(alias_of(name)), name),
        mirrored_dunders(names.push(alias_of(name))).contains(name),
{
    lemma_slot_names_are_mirrored(name);
    let all = names.push(alias_of(name));
    assert(all[names.len() as int] == alias_of(name));
    assert(all.contains(alias_of(name)));
    let k = choose|k: int| 0 <= k < slot_dunders().len() && slot_dunders()[k] == name;
    broadcast use vstd::seq_lib::group_filter_ensures;
    assert(slot_dunders()[k] == name);
}

/// Defining one more name never takes a slot away.
pub proof fn lemma_more_names_keep_slots(names: Seq<Seq<char>>, extra: Seq<char>)
    ensures
        ({
            let a = slot_plan_of(names);
            let b = slot_plan_of(names.push(extra));
            &&& a.repr ==> b.repr
            &&& a.str ==> b.str
            &&& a.hash ==> b.hash
            &&& a.iter ==> b.iter
            &&& a.iternext ==> b.iternext
            &&& a.richcompare ==> b.richcompare
            &&& a.length ==> b.length
            &&& a.subscript ==> b.subscript
            &&& a.ass_subscript ==> b.ass_subscript
            &&& a.contains ==> b.contains
            &&& a.call ==> b.call
        }),
{
    let b = names.push(extra);
    assert forall|x: Seq<char>| names.contains(x) implies #[trigger] b.contains(x) by {
        let j = choose|j: int| 0 <= j < names.len() && names[j] == x;
        assert(b[j] == x);
    }
}

/// The sequence `contains` slot is wired exactly when the class defines `__contains__`,
/// under that name or under its alias `_pyo3_slot___contains__`; no other name has a
/// say, so adding any other name (`__len__` among them) leaves it as it was.
pub proof fn lemma_contains_slot_follows_contains_alone(names: Seq<Seq<char>>, other: Seq<char>)
    ensures
        slot_plan_of(names).contains
            <==> (names.contains("__contains__"@) || names.contains("_pyo3_slot___contains__"@)),
        (other != "__contains__"@ && other != "_pyo3_slot___contains__"@)
            ==> slot_plan_of(names.push(other)).contains == slot_plan_of(names).contains,
{
    reveal_strlit("_pyo3_slot_");
    reveal_strlit("__contains__");
    reveal_strlit("_pyo3_slot___contains__");
    assert(alias_of("__contains__"@) =~= "_pyo3_slot___contains__"@);
    assert(slot_dunders()[38] == "__contains__"@);
    assert(slot_dunders().contains("__contains__"@));
    let b = names.push(other);
    assert forall|x: Seq<char>| x != other implies (#[trigger] b.contains(x) <==> names.contains(x)) by {
        if b.contains(x) {
            let j = choose|j: int| 0 <= j < b.len() && b[j] == x;
            assert(j < names.len());
            assert(names[j] == x);
        }
        if names.contains(x) {
            let j = choose|j: int| 0 <= j < names.len() && names[j] == x;
            assert(b[j] == x);
        }
    }
}

/// Decides the slot wiring of a class from the names in its attribute dictionary.
pub fn slot_plan(attrs: &Vec<String>) -> (r: SlotPlan)
    ensures
        r@ == slot_plan_of(names_of(attrs@)),
{
    let ghost names = names_of(attrs@);
    let dunders = slot_dunder_names();
    let mut mirrored: Vec<String> = Vec::new();
    let n = dunders.len();
    let mut i: usize = 0;
    assert(slot_dunders().take(0).filter(|d: Seq<char>| names.contains(alias_of(d)))
        =~= Seq::<Seq<char>>::empty());
    assert(names_of(mirrored@) =~= Seq::<Seq<char>>::empty());
    while i < n
        invariant
            names == names_of(attrs@),
            n == dunders@.len(),
            n == slot_dunders().len(),
            forall|j: int| 0 <= j < dunders@.len() ==> #[trigger] dunders@[j]@ == slot_dunders()[j],
            i <= n,
            names_of(mirrored@) == slot_dunders().take(i as int).filter(
                |d: Seq<char>| names.contains(alias_of(d)),
            ),
        decreases n - i,
    {
        let d = dunders[i];
        let a = slot_alias(d);
        let present = has_name(attrs, &a);
        let ghost before = mirrored@;
        if present {
            mirrored.push(d.to_owned());
        }
        proof {
            let p = |x: Seq<char>| names.contains(alias_of(x));
            let t = slot_dunders().take(i + 1);
            assert(t.drop_last() =~= slot_dunders().take(i as int));
            assert(t.last() == d@);
            reveal_with_fuel(Seq::<_>::filter, 1);
            assert(t.filter(p) == if p(t.last()) {
                t.drop_last().filter(p).push(t.last())
            } else {
                t.drop_last().filter(p)
            });
            if present {
                assert(names_of(mirrored@) =~= names_of(before).push(d@));
            } else {
                assert(mirrored@ == before);
            }
        }
        i = i + 1;
    }
    assert(slot_dunders().take(n as int) =~= slot_dunders());
    assert(slot_dunders()[0] == "__repr__"@);
    assert(slot_dunders()[1] == "__str__"@);
    assert(slot_dunders()[2] == "__hash__"@);
    assert(slot_dunders()[3] == "__iter__"@);
    assert(slot_dunders()[4] == "__next__"@);
    assert(slot_dunders()[5] == "__eq__"@);
    assert(slot_dunders()[6] == "__ne__"@);
    assert(slot_dunders()[7] == "__lt__"@);
    assert(slot_dunders()[8] == "__le__"@);
    assert(slot_dunders()[9] == "__gt__"@);
    assert(slot_dunders()[10] == "__ge__"@);
    assert(slot_dunders()[38] == "__contains__"@);
    assert(slot_dunders()[39] == "__len__"@);
    assert(slot_dunders()[40] == "__getitem__"@);
    assert(slot_dunders()[41] == "__setitem__"@);
    assert(slot_dunders()[42] == "__delitem__"@);
    assert(slot_dunders()[45] == "__call__"@);
    let repr = defined_exec(attrs, "__repr__");
    let str = defined_exec(attrs, "__str__");
    let hash = defined_exec(attrs, "__hash__");
    let iter = defined_exec(attrs, "__iter__");
    let iternext = defined_exec(attrs, "__next__");
    let eq = defined_exec(attrs, "__eq__");
    let ne = defined_exec(attrs, "__ne__");
    let lt = defined_exec(attrs, "__lt__");
    let le = defined_exec(attrs, "__le__");
    let gt = defined_exec(attrs, "__gt__");
    let ge = defined_exec(attrs, "__ge__");
    let length = defined_exec(attrs, "__len__");
    let subscript = defined_exec(attrs, "__getitem__");
    let setitem = defined_exec(attrs, "__setitem__");
    let delitem = defined_exec(attrs, "__delitem__");
    let contains = defined_exec(attrs, "__contains__");
    let call = defined_exec(attrs, "__call__");
    SlotPlan {
        mirrored,
        repr,
        str,
        hash,
        iter,
        iternext,
        richcompare: eq || ne || lt || le || gt || ge,
        length,
        subscript,
        ass_subscript: setitem || delitem,
        contains,
        call,
    }
}

/// Calls `rustpython_vm::common::hash::fix_sentinel`, which turns -1, the hash value
/// reserved to signal an error, into -2 and gives back every other value unchanged.
#[verifier::external_body]
fn fix_sentinel(x: i64) -> (r: i64)
    ensures
        r as int == (if x == -1 { -2 } else { x as int }),
{
    rustpython_vm::common::hash::fix_sentinel(x)
}

/// The hash of an object whose `__hash__` returned `v`, a value that fits in an `i64`:
/// `v` itself, except that -1 becomes -2, so that no hash is -1.
pub fn hash_from_i64(v: i64) -> (r: i64)
    ensures
        r as int == (if v == -1 { -2 } else { v as int }),
        r != -1,
{
    fix_sentinel(v)
}

/// The length of an object whose `__len__` returned `v`; `None` where `v` is negative,
/// which is reported as "__len__() should return >= 0".
pub fn len_from_value(v: isize) -> (r: Option<usize>)
    ensures
        r is Some <==> v >= 0,
        r matches Some(n) ==> n as int == v as int,
{
    if v < 0 {
        None
    } else {
        Some(v as usize)
    }
}

} // verus!
