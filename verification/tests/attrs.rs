use pyo3_rustpython::attrs::{
    derives_debug, extract_string_value, field_accessors, from_py_object_plan, inventory_class_name,
    module_name_from_attr, module_symbols, parse_pyclass_options, static_def_name, DeriveError,
    Extraction, ItemShape, PyClassOptions,
};

#[test]
fn string_values() {
    assert_eq!(extract_string_value(" = \"Foo\""), Some("Foo".to_string()));
    assert_eq!(extract_string_value("=\"a b\""), Some("a b".to_string()));
    assert_eq!(extract_string_value(" = Foo"), None);
    assert_eq!(extract_string_value("\"Foo\""), None);
    assert_eq!(extract_string_value(" = \"Foo"), None);
}

#[test]
fn default_options() {
    let o = PyClassOptions::new();
    assert!(o.name.is_none() && o.module.is_none() && o.extends.is_none());
    assert!(!o.frozen && !o.set && !o.get_all && !o.from_py_object && !o.subclass && !o.sequence);
}

#[test]
fn options_are_read() {
    let o = parse_pyclass_options("name = \"Point\", module = \"geo\", frozen, get_all, subclass");
    assert_eq!(o.name, Some("Point".to_string()));
    assert_eq!(o.module, Some("geo".to_string()));
    assert!(o.frozen && o.get_all && o.subclass);
    assert!(!o.set && !o.sequence && !o.from_py_object);
    let f = o.type_flags();
    assert!(f.base_type && !f.sequence);
    assert_eq!(o.python_name("RustPoint"), "Point");
}

#[test]
fn python_name_defaults_to_ident() {
    let o = parse_pyclass_options("frozen");
    assert_eq!(o.python_name("RustPoint"), "RustPoint");
}

#[test]
fn last_name_option_wins() {
    let o = parse_pyclass_options("name = \"A\", name = \"B\"");
    assert_eq!(o.name, Some("B".to_string()));
}

#[test]
fn extends_needs_a_path() {
    let o = parse_pyclass_options("extends = PyException");
    assert_eq!(o.extends, Some("PyException".to_string()));
    let o = parse_pyclass_options("extends = crate :: Base");
    assert_eq!(o.extends, Some("crate :: Base".to_string()));
    let o = parse_pyclass_options("extends = Base");
    assert_eq!(o.extends, Some("Base".to_string()));
    let o = parse_pyclass_options("extends = 1 + 2");
    assert_eq!(o.extends, None);
}

#[test]
fn unknown_options_are_passed_over() {
    let o = parse_pyclass_options("weakref, dict, sequence");
    assert!(o.sequence);
    assert!(o.name.is_none());
}

#[test]
fn module_names() {
    assert_eq!(module_name_from_attr("name = \"_native\""), Some("_native".to_string()));
    assert_eq!(module_name_from_attr("gil_used = false, name = \"m\""), Some("m".to_string()));
    assert_eq!(module_name_from_attr("gil_used = false"), None);
    assert_eq!(module_name_from_attr("name = \"\""), None);
}

#[test]
fn module_symbol_names() {
    let s = module_symbols("my_mod", "", None, 1);
    assert_eq!(s.module_name, "my_mod");
    assert_eq!(s.module_def_fn, "my_mod_module_def");
    assert_eq!(s.exec_fn, "__pyo3_my_mod_exec");
    assert_eq!(s.static_def, "__PYO3_MY_MOD_DEF");
    assert!(!s.passes_py);
    let s = module_symbols("f", "name = \"real\"", Some("sib".to_string()), 2);
    assert_eq!(s.module_name, "real");
    assert!(s.passes_py);
    let s = module_symbols("f", "", Some("sib".to_string()), 2);
    assert_eq!(s.module_name, "sib");
}

#[test]
fn static_def_names() {
    assert_eq!(static_def_name("ABC"), "__PYO3_ABC_DEF");
}

#[test]
fn inventory_names() {
    assert_eq!(inventory_class_name("Point"), "__Pyo3InventoryForPoint");
}

#[test]
fn debug_derives() {
    let paths = vec![vec!["Clone".to_string()], vec!["std".to_string(), "fmt".to_string(), "Debug".to_string()]];
    assert!(derives_debug(&paths));
    let paths = vec![vec!["Clone".to_string()], vec![]];
    assert!(!derives_debug(&paths));
}

#[test]
fn field_accessor_choices() {
    assert_eq!(field_accessors(false, &vec![]), None);
    assert_eq!(field_accessors(true, &vec![]), Some((true, false)));
    assert_eq!(field_accessors(false, &vec!["get".to_string(), "set".to_string()]), Some((true, true)));
    assert_eq!(field_accessors(false, &vec!["set".to_string()]), Some((false, true)));
    assert_eq!(field_accessors(false, &vec!["name".to_string()]), None);
}

#[test]
fn from_py_object_plans() {
    assert!(from_py_object_plan(ItemShape::TupleStruct(1)) == Ok(Extraction::Tuple(1)));
    assert!(from_py_object_plan(ItemShape::TupleStruct(3)) == Ok(Extraction::Tuple(3)));
    assert!(from_py_object_plan(ItemShape::UnitStruct) == Ok(Extraction::Unit));
    assert!(from_py_object_plan(ItemShape::NamedStruct) == Ok(Extraction::Unsupported));
    assert!(from_py_object_plan(ItemShape::Enum) == Err(DeriveError::NotAStruct));
    assert!(from_py_object_plan(ItemShape::Union) == Err(DeriveError::NotAStruct));
}

#[test]
fn flags_stay_set_after_other_options() {
    let o = parse_pyclass_options("frozen, name = \"A\", weakref, subclass");
    assert!(o.frozen && o.subclass);
    assert_eq!(o.name, Some("A".to_string()));
}
