use pyo3_rustpython::slots::{hash_from_i64, len_from_value, slot_alias, slot_plan};

fn names(v: &[&str]) -> Vec<String> {
    v.iter().map(|s| s.to_string()).collect()
}

#[test]
fn empty_class_gets_no_slots() {
    let p = slot_plan(&names(&[]));
    assert!(p.mirrored.is_empty());
    assert!(!p.repr && !p.str && !p.hash && !p.iter && !p.iternext);
    assert!(!p.richcompare && !p.length && !p.subscript && !p.ass_subscript);
    assert!(!p.contains && !p.call);
}

#[test]
fn dunder_names_wire_their_slots() {
    let p = slot_plan(&names(&["__repr__", "__len__", "__getitem__", "__call__", "foo"]));
    assert!(p.repr);
    assert!(p.length);
    assert!(p.subscript);
    assert!(p.call);
    assert!(!p.str);
    assert!(!p.ass_subscript);
    assert!(p.mirrored.is_empty());
}

#[test]
fn aliases_are_mirrored_in_list_order() {
    let p = slot_plan(&names(&["_pyo3_slot___len__", "_pyo3_slot___repr__", "_pyo3_slot___add__"]));
    assert_eq!(p.mirrored, names(&["__repr__", "__add__", "__len__"]));
    assert!(p.repr);
    assert!(p.length);
}

#[test]
fn alias_wires_like_dunder_itself() {
    for d in ["__repr__", "__str__", "__hash__", "__eq__", "__ge__", "__len__", "__setitem__", "__contains__"] {
        let via_alias = slot_plan(&vec![slot_alias(d)]);
        let direct = slot_plan(&vec![d.to_string()]);
        assert_eq!(via_alias.repr, direct.repr);
        assert_eq!(via_alias.str, direct.str);
        assert_eq!(via_alias.hash, direct.hash);
        assert_eq!(via_alias.richcompare, direct.richcompare);
        assert_eq!(via_alias.length, direct.length);
        assert_eq!(via_alias.ass_subscript, direct.ass_subscript);
        assert_eq!(via_alias.contains, direct.contains);
        assert_eq!(via_alias.mirrored, vec![d.to_string()]);
    }
}

#[test]
fn any_comparison_wires_richcompare() {
    for d in ["__eq__", "__ne__", "__lt__", "__le__", "__gt__", "__ge__"] {
        assert!(slot_plan(&names(&[d])).richcompare);
    }
    assert!(!slot_plan(&names(&["__richcmp__"])).richcompare);
}

#[test]
fn setitem_or_delitem_wires_assignment() {
    assert!(slot_plan(&names(&["__setitem__"])).ass_subscript);
    assert!(slot_plan(&names(&["__delitem__"])).ass_subscript);
    assert!(!slot_plan(&names(&["__getitem__"])).ass_subscript);
}

#[test]
fn sequence_operators_are_mirrored() {
    let p = slot_plan(&names(&["_pyo3_slot___concat__", "_pyo3_slot___inplace_repeat__"]));
    assert_eq!(p.mirrored, vec!["__concat__".to_string(), "__inplace_repeat__".to_string()]);
}

#[test]
fn more_names_keep_slots() {
    let a = slot_plan(&names(&["__iter__"]));
    let b = slot_plan(&names(&["__iter__", "__next__"]));
    assert!(a.iter && b.iter && b.iternext && !a.iternext);
}

#[test]
fn slot_alias_prefixes_the_name() {
    assert_eq!(slot_alias("__repr__"), "_pyo3_slot___repr__");
}

#[test]
fn hash_sentinel_is_replaced() {
    assert_eq!(hash_from_i64(-1), -2);
    assert_eq!(hash_from_i64(-2), -2);
    assert_eq!(hash_from_i64(42), 42);
    assert_eq!(hash_from_i64(i64::MIN), i64::MIN);
}

#[test]
fn negative_length_is_refused() {
    assert_eq!(len_from_value(-1), None);
    assert_eq!(len_from_value(0), Some(0));
    assert_eq!(len_from_value(7), Some(7));
}
