//! Reading the options written in `#[pyclass(...)]` and `#[pymodule(...)]` attributes,
//! and the names the attribute macros generate.
use vstd::prelude::*;
use crate::text::{
    chars_of, eq_exec, slice_vec, split_char, split_char_exec, starts_with, starts_with_exec,
    string_from_chars, strip_prefix, trim_char, trim_char_exec, strip_prefix_exec, strip_suffix, strip_suffix_exec, trim,
    trim_exec, trim_start, trim_start_char, trim_start_char_exec, views,
};
use crate::tokens::{capital_ident, is_path_text, path_answer_ok, to_upper, upper_case};

verus! {

/// The view of an optional string.
pub open spec fn opt_view(o: Option<String>) -> Option<Seq<char>> {
    match o {
        Some(s) => Some(s@),
        None => None,
    }
}

/// The view of an optional character vector.
pub open spec fn opt_vview(o: Option<Vec<char>>) -> Option<Seq<char>> {
    match o {
        Some(s) => Some(s@),
        None => None,
    }
}

/// The value of a `= "..."` option: the text between the quotes after `=`, with
/// whitespace allowed around `=`.
pub open spec fn string_value(s: Seq<char>) -> Option<Seq<char>> {
    match strip_prefix(trim(s), "="@) {
        None => None,
        Some(a) => match strip_prefix(trim(a), "\""@) {
            None => None,
            Some(b) => strip_suffix(b, "\""@),
        },
    }
}

fn string_value_vec(s: &Vec<char>) -> (r: Option<Vec<char>>)
    ensures
        opt_vview(r) == string_value(s@),
{
    let t = trim_exec(s);
    match strip_prefix_exec(&t, "=") {
        None => None,
        Some(a) => {
            let a2 = trim_exec(&a);
            match strip_prefix_exec(&a2, "\"") {
                None => None,
                Some(b) => strip_suffix_exec(&b, "\""),
            }
        },
    }
}

/// Reads the value of a `= "..."` option.
pub fn extract_string_value(s: &str) -> (r: Option<String>)
    ensures
        opt_view(r) == string_value(s@),
{
    let v = chars_of(s);
    match string_value_vec(&v) {
        Some(x) => Some(string_from_chars(&x)),
        None => None,
    }
}

/// What `#[pyclass(...)]` can say.
pub struct PyClassOptions {
    pub name: Option<String>,
    pub module: Option<String>,
    pub frozen: bool,
    pub set: bool,
    pub get_all: bool,
    pub from_py_object: bool,
    pub subclass: bool,
    /// The text of the base class path, when it is a path.
    pub extends: Option<String>,
    pub sequence: bool,
}

/// The mathematical content of `PyClassOptions`.
pub struct ClassOptionsModel {
    pub name: Option<Seq<char>>,
    pub module: Option<Seq<char>>,
    pub frozen: bool,
    pub set: bool,
    pub get_all: bool,
    pub from_py_object: bool,
    pub subclass: bool,
    pub extends: Option<Seq<char>>,
    pub sequence: bool,
}

impl View for PyClassOptions {
    type V = ClassOptionsModel;

    open spec fn view(&self) -> ClassOptionsModel {
        ClassOptionsModel {
            name: opt_view(self.name),
            module: opt_view(self.module),
            frozen: self.frozen,
            set: self.set,
            get_all: self.get_all,
            from_py_object: self.from_py_object,
            subclass: self.subclass,
            extends: opt_view(self.extends),
            sequence: self.sequence,
        }
    }
}

/// No option given.
pub open spec fn default_class_options() -> ClassOptionsModel {
    ClassOptionsModel {
        name: None,
        module: None,
        frozen: false,
        set: false,
        get_all: false,
        from_py_object: false,
        subclass: false,
        extends: None,
        sequence: false,
    }
}

/// The text after `extends`, read as a path: whitespace, then any `=`, then whitespace.
pub open spec fn extends_text(rest: Seq<char>) -> Seq<char> {
    trim(trim_start_char(trim(rest), '='))
}

/// The effect of one comma-separated part of the attribute on the options read so far;
/// `path_ok` says whether the text after `extends` was accepted as a path.
pub open spec fn apply_class_option(o: ClassOptionsModel, part: Seq<char>, path_ok: bool) -> ClassOptionsModel {
    let p = trim(part);
    if p == "frozen"@ {
        ClassOptionsModel { frozen: true, ..o }
    } else if p == "set"@ {
        ClassOptionsModel { set: true, ..o }
    } else if p == "get_all"@ {
        ClassOptionsModel { get_all: true, ..o }
    } else if p == "sequence"@ {
        ClassOptionsModel { sequence: true, ..o }
    } else if p == "from_py_object"@ {
        ClassOptionsModel { from_py_object: true, ..o }
    } else if p == "subclass"@ {
        ClassOptionsModel { subclass: true, ..o }
    } else if starts_with(p, "name"@) {
        match string_value(p.skip(4)) {
            Some(v) => ClassOptionsModel { name: Some(v), ..o },
            None => o,
        }
    } else if starts_with(p, "module"@) {
        match string_value(p.skip(6)) {
            Some(v) => ClassOptionsModel { module: Some(v), ..o },
            None => o,
        }
    } else if starts_with(p, "extends"@) && path_ok {
        ClassOptionsModel { extends: Some(extends_text(p.skip(7))), ..o }
    } else {
        o
    }
}

/// The options that the parts give, read from left to right; `oks[i]` says whether the
/// `extends` text of part `i`, if it has one, was accepted as a path.
pub open spec fn class_options_from(parts: Seq<Seq<char>>, oks: Seq<bool>) -> ClassOptionsModel
    decreases parts.len(),
{
    if parts.len() == 0 {
        default_class_options()
    } else {
        apply_class_option(class_options_from(parts.drop_last(), oks.drop_last()), parts.last(), oks.last())
    }
}

/// The options written in the text of a `#[pyclass(...)]` attribute, given which
/// `extends` texts were accepted as paths.
pub open spec fn class_options(attr: Seq<char>, oks: Seq<bool>) -> ClassOptionsModel {
    class_options_from(split_char(attr, ','), oks)
}

/// The part of the attribute on which `is_path_text` is asked: the text after `extends`.
pub open spec fn extends_part(part: Seq<char>) -> Option<Seq<char>> {
    let p = trim(part);
    if p == "frozen"@ || p == "set"@ || p == "get_all"@ || p == "sequence"@ || p == "from_py_object"@
        || p == "subclass"@ || starts_with(p, "name"@) || starts_with(p, "module"@) {
        None
    } else if starts_with(p, "extends"@) {
        Some(extends_text(p.skip(7)))
    } else {
        None
    }
}

/// Which of the flags that a type object gets beyond the default ones are set.
pub struct TypeFlagChoice {
    /// `PyTypeFlags::BASETYPE`: the class may be subclassed.
    pub base_type: bool,
    /// `PyTypeFlags::SEQUENCE`.
    pub sequence: bool,
}

impl PyClassOptions {
    pub fn new() -> (r: Self)
        ensures
            r@ == default_class_options(),
    {
        PyClassOptions {
            name: None,
            module: None,
            frozen: false,
            set: false,
            get_all: false,
            from_py_object: false,
            subclass: false,
            extends: None,
            sequence: false,
        }
    }

    /// The flags that the options add to the type's default flags.
    pub fn type_flags(&self) -> (r: TypeFlagChoice)
        ensures
            r.base_type == self.subclass,
            r.sequence == self.sequence,
    {
        TypeFlagChoice { base_type: self.subclass, sequence: self.sequence }
    }

    /// The Python name of the class: the `name` option, else the Rust name.
    pub fn python_name(&self, ident: &str) -> (r: String)
        ensures
            r@ == (match self.name {
                Some(n) => n@,
                None => ident@,
            }),
    {
        match &self.name {
            Some(n) => n.clone(),
            None => ident.to_owned(),
        }
    }

    /// Applies one comma-separated part of the attribute; `path_ok` says whether the
    /// text after `extends` is accepted as a path.
    pub fn apply_option(&mut self, part: &str, path_ok: bool)
        ensures
            final(self)@ == apply_class_option(old(self)@, part@, path_ok),
    {
        let v = chars_of(part);
        self.apply(&v, path_ok);
    }

    fn apply(&mut self, part: &Vec<char>, path_ok: bool)
        ensures
            final(self)@ == apply_class_option(old(self)@, part@, path_ok),
    {
        let p = trim_exec(part);
        if eq_exec(&p, "frozen") {
            self.frozen = true;
        } else if eq_exec(&p, "set") {
            self.set = true;
        } else if eq_exec(&p, "get_all") {
            self.get_all = true;
        } else if eq_exec(&p, "sequence") {
            self.sequence = true;
        } else if eq_exec(&p, "from_py_object") {
            self.from_py_object = true;
        } else if eq_exec(&p, "subclass") {
            self.subclass = true;
        } else if starts_with_exec(&p, "name") {
            proof {
                reveal_strlit("name");
            }
            let rest = slice_vec(&p, 4, p.len());
            assert(rest@ =~= p@.skip(4));
            match string_value_vec(&rest) {
                Some(v) => {
                    self.name = Some(string_from_chars(&v));
                },
                None => {},
            }
        } else if starts_with_exec(&p, "module") {
            proof {
                reveal_strlit("module");
            }
            let rest = slice_vec(&p, 6, p.len());
            assert(rest@ =~= p@.skip(6));
            match string_value_vec(&rest) {
                Some(v) => {
                    self.module = Some(string_from_chars(&v));
                },
                None => {},
            }
        } else if starts_with_exec(&p, "extends") {
            proof {
                reveal_strlit("extends");
            }
            let rest = slice_vec(&p, 7, p.len());
            assert(rest@ =~= p@.skip(7));
            let a = trim_exec(&rest);
            let b = trim_start_char_exec(&a, '=');
            let c = trim_exec(&b);
            if path_ok {
                self.extends = Some(string_from_chars(&c));
            }
        }
    }
}

/// The value text of an option written `<key> = "v"`, as the attribute renders it,
/// reads back as `v`, whatever `v` holds.
pub proof fn lemma_option_value_reads_back(v: Seq<char>)
    ensures
        string_value(" = \""@ + v + "\""@) == Some(v),
{
    reveal_strlit(" = \"");
    reveal_strlit("\"");
    reveal_strlit("=");
    let s = " = \""@ + v + "\""@;
    let t = s.drop_first();
    assert(t[0] == '=');
    assert(trim_start(t) == t);
    assert(trim_start(s) == t);
    assert(t.last() == '"');
    assert(crate::text::trim_end(t) == t);
    assert(trim(s) == t);
    let a = t.skip(1);
    assert(t.subrange(0, 1) =~= "="@);
    assert(strip_prefix(t, "="@) == Some(a));
    let b = a.drop_first();
    assert(a[0] == ' ');
    assert(b[0] == '"');
    assert(trim_start(b) == b);
    assert(trim_start(a) == b);
    assert(b.last() == '"');
    assert(crate::text::trim_end(b) == b);
    assert(trim(a) == b);
    let c = b.skip(1);
    assert(b.subrange(0, 1) =~= "\""@);
    assert(strip_prefix(b, "\""@) == Some(c));
    assert(c =~= v + "\""@);
    assert(c.subrange(c.len() - 1, c.len() as int) =~= "\""@);
    assert(c.take(c.len() - 1) =~= v);
}

/// Whatever options come before it, a last option `name = "v"` makes `v` the Python
/// name of the class.
pub proof fn lemma_last_name_option_wins(parts: Seq<Seq<char>>, oks: Seq<bool>, ok: bool, v: Seq<char>)
    ensures
        class_options_from(parts.push("name = \""@ + v + "\""@), oks.push(ok)).name == Some(v),
{
    reveal_strlit("name = \"");
    reveal_strlit("name");
    reveal_strlit("\"");
    reveal_strlit("frozen");
    reveal_strlit("set");
    reveal_strlit("get_all");
    reveal_strlit("sequence");
    reveal_strlit("from_py_object");
    reveal_strlit("subclass");
    reveal_strlit(" = \"");
    let p = "name = \""@ + v + "\""@;
    let all = parts.push(p);
    assert(all.drop_last() =~= parts);
    assert(oks.push(ok).drop_last() =~= oks);
    assert(all.last() == p);
    assert(p[0] == 'n');
    assert(trim_start(p) == p);
    assert(p.last() == '"');
    assert(crate::text::trim_end(p) == p);
    assert(trim(p) == p);
    assert(p != "frozen"@ && p != "set"@ && p != "get_all"@ && p != "sequence"@);
    assert(p != "from_py_object"@ && p != "subclass"@);
    assert(p.subrange(0, 4) =~= "name"@);
    assert(p.skip(4) =~= " = \""@ + v + "\""@);
    lemma_option_value_reads_back(v);
}

/// A part `extends = Base` that names a capitalised type sets the base class, whatever
/// options come before it: every answer that `is_path_text` may give about `Base`
/// accepts it.
pub proof fn lemma_extends_type_sets_base(parts: Seq<Seq<char>>, oks: Seq<bool>, part: Seq<char>, ok: bool)
    requires
        extends_part(part) matches Some(t) && capital_ident(t),
        path_answer_ok(extends_part(part), ok),
    ensures
        class_options_from(parts.push(part), oks.push(ok)).extends == extends_part(part),
{
    let all = parts.push(part);
    assert(all.drop_last() =~= parts);
    assert(oks.push(ok).drop_last() =~= oks);
}

/// A flag option, once given, stays set whatever options follow it; a later part never
/// clears a flag.
pub proof fn lemma_flags_stay_set(parts: Seq<Seq<char>>, oks: Seq<bool>, part: Seq<char>, ok: bool)
    ensures
        ({
            let before = class_options_from(parts, oks);
            let after = class_options_from(parts.push(part), oks.push(ok));
            &&& before.frozen ==> after.frozen
            &&& before.set ==> after.set
            &&& before.get_all ==> after.get_all
            &&& before.from_py_object ==> after.from_py_object
            &&& before.subclass ==> after.subclass
            &&& before.sequence ==> after.sequence
            &&& before.name is Some ==> after.name is Some
            &&& before.module is Some ==> after.module is Some
            &&& before.extends is Some ==> after.extends is Some
        }),
{
    let all = parts.push(part);
    assert(all.drop_last() =~= parts);
    assert(oks.push(ok).drop_last() =~= oks);
}

/// Asks `is_path_text` whether the text after `extends` in one part of the attribute
/// reads as a path; `false` for a part that sets another option.
fn extends_is_path(part: &Vec<char>) -> (r: bool)
    ensures
        path_answer_ok(extends_part(part@), r),
{
    let p = trim_exec(part);
    if eq_exec(&p, "frozen") || eq_exec(&p, "set") || eq_exec(&p, "get_all") || eq_exec(&p, "sequence")
        || eq_exec(&p, "from_py_object") || eq_exec(&p, "subclass") || starts_with_exec(&p, "name")
        || starts_with_exec(&p, "module") {
        return false;
    }
    if !starts_with_exec(&p, "extends") {
        return false;
    }
    proof {
        reveal_strlit("extends");
    }
    let rest = slice_vec(&p, 7, p.len());
    assert(rest@ =~= p@.skip(7));
    let a = trim_exec(&rest);
    let b = trim_start_char_exec(&a, '=');
    let c = trim_exec(&b);
    let text = string_from_chars(&c);
    assert(extends_part(part@) == Some(text@));
    is_path_text(text.as_str())
}

/// Each answer in `oks` is one that `is_path_text` may give about the `extends` text of
/// the matching part of the attribute.
pub open spec fn path_answers_ok(attr: Seq<char>, oks: Seq<bool>) -> bool {
    forall|i: int| 0 <= i < oks.len() ==> path_answer_ok(extends_part(#[trigger] split_char(attr, ',')[i]), oks[i])
}

/// Reads the options written in the text of a `#[pyclass(...)]` attribute. Whether the
/// text after `extends` reads as a path is asked of `syn`, whose answer inside a
/// procedural macro comes from the running compiler; the options are those that the
/// answers given make, each answer about the right text and one that every compiler may
/// give (`path_answer_ok`: so `extends = Base` always sets the base class), and every
/// other option is read exactly.
pub fn parse_pyclass_options(attr: &str) -> (r: PyClassOptions)
    ensures
        exists|oks: Seq<bool>| {
            &&& oks.len() == split_char(attr@, ',').len()
            &&& path_answers_ok(attr@, oks)
            &&& r@ == class_options(attr@, oks)
        },
{
    let v = chars_of(attr);
    let parts = split_char_exec(&v, ',');
    let mut opts = PyClassOptions::new();
    let ghost mut oks: Seq<bool> = Seq::empty();
    let mut i: usize = 0;
    while i < parts.len()
        invariant
            i <= parts@.len(),
            oks.len() == i,
            views(parts@) == split_char(attr@, ','),
            forall|k: int| 0 <= k < i ==> path_answer_ok(extends_part(#[trigger] views(parts@)[k]), oks[k]),
            opts@ == class_options_from(views(parts@).take(i as int), oks),
        decreases parts@.len() - i,
    {
        let ok = extends_is_path(&parts[i]);
        proof {
            let ps = views(parts@);
            assert(ps.take(i + 1).drop_last() =~= ps.take(i as int));
            assert(ps.take(i + 1).last() == parts@[i as int]@);
            assert(oks.push(ok).drop_last() =~= oks);
            assert(ps[i as int] == parts@[i as int]@);
            oks = oks.push(ok);
        }
        opts.apply(&parts[i], ok);
        i = i + 1;
    }
    assert(views(parts@).take(parts@.len() as int) =~= views(parts@));
    assert(views(parts@).len() == parts@.len());
    assert(oks.len() == split_char(attr@, ',').len() && opts@ == class_options(attr@, oks));
    assert(path_answers_ok(attr@, oks));
    opts
}


/// The module name that one comma-separated part of `#[pymodule(...)]` gives:
/// `name = "..."`, with the quotes trimmed, when what is left is not empty.
pub open spec fn module_name_part(part: Seq<char>) -> Option<Seq<char>> {
    match strip_prefix(trim(part), "name"@) {
        None => None,
        Some(rest) => match strip_prefix(trim(rest), "="@) {
            None => None,
            Some(v) => if trim_char(trim(v), '"').len() > 0 {
                Some(trim_char(trim(v), '"'))
            } else {
                None
            },
        },
    }
}

/// The first name that the parts give, if any.
pub open spec fn module_name_from(parts: Seq<Seq<char>>) -> Option<Seq<char>>
    decreases parts.len(),
{
    if parts.len() == 0 {
        None
    } else {
        match module_name_part(parts[0]) {
            Some(v) => Some(v),
            None => module_name_from(parts.drop_first()),
        }
    }
}

/// The module name written in the text of a `#[pymodule(...)]` attribute.
pub open spec fn module_attr_name(attr: Seq<char>) -> Option<Seq<char>> {
    module_name_from(split_char(attr, ','))
}

fn module_name_part_vec(part: &Vec<char>) -> (r: Option<Vec<char>>)
    ensures
        opt_vview(r) == module_name_part(part@),
{
    let p = trim_exec(part);
    match strip_prefix_exec(&p, "name") {
        None => None,
        Some(rest) => {
            let r2 = trim_exec(&rest);
            match strip_prefix_exec(&r2, "=") {
                None => None,
                Some(v) => {
                    let v2 = trim_exec(&v);
                    let v3 = trim_char_exec(&v2, '"');
                    if v3.len() > 0 {
                        Some(v3)
                    } else {
                        None
                    }
                },
            }
        },
    }
}

/// Reads `name = "..."` from the text of a `#[pymodule(...)]` attribute; other options
/// (such as `gil_used = ...`) are passed over.
pub fn module_name_from_attr(attr: &str) -> (r: Option<String>)
    ensures
        opt_view(r) == module_attr_name(attr@),
{
    let v = chars_of(attr);
    let parts = split_char_exec(&v, ',');
    let mut i: usize = 0;
    assert(views(parts@).skip(0) =~= views(parts@));
    while i < parts.len()
        invariant
            i <= parts@.len(),
            views(parts@) == split_char(attr@, ','),
            module_name_from(views(parts@)) == module_name_from(views(parts@).skip(i as int)),
        decreases parts@.len() - i,
    {
        let found = module_name_part_vec(&parts[i]);
        proof {
            let t = views(parts@).skip(i as int);
            assert(t[0] == parts@[i as int]@);
            assert(t.drop_first() =~= views(parts@).skip(i + 1));
        }
        match found {
            Some(name) => {
                return Some(string_from_chars(&name));
            },
            None => {},
        }
        i = i + 1;
    }
    None
}

/// The names under which `#[pymodule]` emits its items for a module function.
pub struct ModuleSymbols {
    /// The Python name of the module.
    pub module_name: String,
    /// `<fn>_module_def`, the function that returns the module definition.
    pub module_def_fn: String,
    /// `__pyo3_<fn>_exec`, the exec slot.
    pub exec_fn: String,
    /// `__PYO3_<FN>_DEF`, the static that holds the definition.
    pub static_def: String,
    /// Whether the module function takes a `Python` token before the module.
    pub passes_py: bool,
}

/// The module name: the one in the attribute, else the one in a sibling
/// `#[pyo3(name = "...")]`, else the function's own name.
pub open spec fn module_name_choice(fn_name: Seq<char>, attr: Seq<char>, sibling: Option<Seq<char>>) -> Seq<char> {
    match module_attr_name(attr) {
        Some(n) => n,
        None => match sibling {
            Some(n) => n,
            None => fn_name,
        },
    }
}

/// `__PYO3_<NAME>_DEF`, the static that holds a module's definition, from the module
/// function's name in upper case.
pub fn static_def_name(upper: &str) -> (r: String)
    ensures
        r@ == "__PYO3_"@ + upper@ + "_DEF"@,
{
    let mut s = String::from_str("__PYO3_");
    s.append(upper);
    s.append("_DEF");
    s
}

/// Plans the items of `#[pymodule]` for a function `fn_name` with `param_count`
/// parameters, the attribute text `attr` and the name of a sibling `#[pyo3(name)]`.
pub fn module_symbols(fn_name: &str, attr: &str, sibling: Option<String>, param_count: usize) -> (r: ModuleSymbols)
    ensures
        r.module_name@ == module_name_choice(fn_name@, attr@, opt_view(sibling)),
        r.module_def_fn@ == fn_name@ + "_module_def"@,
        r.exec_fn@ == "__pyo3_"@ + fn_name@ + "_exec"@,
        r.static_def@ == "__PYO3_"@ + upper_case(fn_name@) + "_DEF"@,
        r.passes_py == (param_count >= 2),
{
    let module_name = match module_name_from_attr(attr) {
        Some(n) => n,
        None => match sibling {
            Some(n) => n,
            None => fn_name.to_owned(),
        },
    };
    let mut module_def_fn = fn_name.to_owned();
    module_def_fn.append("_module_def");
    let mut exec_fn = String::from_str("__pyo3_");
    exec_fn.append(fn_name);
    exec_fn.append("_exec");
    let upper = to_upper(fn_name);
    let static_def = static_def_name(upper.as_str());
    ModuleSymbols { module_name, module_def_fn, exec_fn, static_def, passes_py: param_count >= 2 }
}

/// `__Pyo3InventoryFor<ident>`, the type that gathers a class's method tables.
pub fn inventory_class_name(ident: &str) -> (r: String)
    ensures
        r@ == "__Pyo3InventoryFor"@ + ident@,
{
    let mut s = String::from_str("__Pyo3InventoryFor");
    s.append(ident);
    s
}

/// Whether one of the derived paths names `Debug` as its last segment.
pub open spec fn derives_debug_spec(paths: Seq<Seq<Seq<char>>>) -> bool {
    exists|i: int| 0 <= i < paths.len() && paths[i].len() > 0 && paths[i].last() == "Debug"@
}

/// The segments of each path, as text.
pub open spec fn path_views(paths: Seq<Vec<String>>) -> Seq<Seq<Seq<char>>> {
    Seq::new(paths.len(), |i: int| Seq::new(paths[i]@.len(), |j: int| paths[i]@[j]@))
}

/// Whether `#[derive(...)]`, given as the segments of its paths, derives `Debug`.
pub fn derives_debug(paths: &Vec<Vec<String>>) -> (r: bool)
    ensures
        r == derives_debug_spec(path_views(paths@)),
{
    let mut i: usize = 0;
    while i < paths.len()
        invariant
            i <= paths@.len(),
            forall|k: int| 0 <= k < i ==> !(#[trigger] path_views(paths@)[k].len() > 0
                && path_views(paths@)[k].last() == "Debug"@),
        decreases paths@.len() - i,
    {
        let segs = &paths[i];
        if segs.len() > 0 {
            let last = chars_of(segs[segs.len() - 1].as_str());
            if eq_exec(&last, "Debug") {
                assert(path_views(paths@)[i as int].last() == "Debug"@);
                return true;
            }
        }
        i = i + 1;
    }
    false
}

/// Which accessors a field gets: a getter where the class has `get_all` or the field
/// says `get`, a setter where it says `set`; `None` where it gets neither.
pub fn field_accessors(get_all: bool, metas: &Vec<String>) -> (r: Option<(bool, bool)>)
    ensures
        ({
            let get = get_all || exists|k: int| 0 <= k < metas@.len() && metas@[k]@ == "get"@;
            let set = exists|k: int| 0 <= k < metas@.len() && metas@[k]@ == "set"@;
            if get || set {
                r == Some((get, set))
            } else {
                r is None
            }
        }),
{
    let mut get = get_all;
    let mut set = false;
    let mut i: usize = 0;
    while i < metas.len()
        invariant
            i <= metas@.len(),
            get == (get_all || exists|k: int| 0 <= k < i && metas@[k]@ == "get"@),
            set == (exists|k: int| 0 <= k < i && metas@[k]@ == "set"@),
        decreases metas@.len() - i,
    {
        let m = chars_of(metas[i].as_str());
        let is_get = eq_exec(&m, "get");
        let is_set = eq_exec(&m, "set");
        if is_get {
            get = true;
        }
        if is_set {
            set = true;
        }
        proof {
            if is_set {
                assert(metas@[i as int]@ == "set"@);
            }
            if is_get {
                assert(metas@[i as int]@ == "get"@);
            }
        }
        i = i + 1;
    }
    if get || set {
        Some((get, set))
    } else {
        None
    }
}

/// The shape of the item that `#[derive(FromPyObject)]` is applied to.
#[derive(PartialEq, Eq, Structural, Clone, Copy, Debug)]
pub enum ItemShape {
    Enum,
    Union,
    /// A struct with that many unnamed fields.
    TupleStruct(usize),
    /// A struct with named fields.
    NamedStruct,
    UnitStruct,
}

/// How the derived `FromPyObject` reads the value.
#[derive(PartialEq, Eq, Structural, Clone, Copy, Debug)]
pub enum Extraction {
    /// The object is read as a tuple of that many items, and field `i` is
    /// extracted from item `i`.
    Tuple(usize),
    /// Nothing is read; the unit value is made.
    Unit,
    /// No extraction is generated: the impl compiles, and calling it panics.
    Unsupported,
}

/// Why `#[derive(FromPyObject)]` refuses an item.
#[derive(PartialEq, Eq, Structural, Clone, Copy, Debug)]
pub enum DeriveError {
    /// "FromPyObject derive only supports structs".
    NotAStruct,
}

/// How the derived `FromPyObject` of an item reads it: a tuple struct
/// positionally from a Python tuple, a unit struct from nothing, and a struct
/// with named fields not at all (its extraction panics when run).
pub open spec fn from_py_object_plan_spec(shape: ItemShape) -> Result<Extraction, DeriveError> {
    match shape {
        ItemShape::Enum | ItemShape::Union => Err(DeriveError::NotAStruct),
        ItemShape::NamedStruct => Ok(Extraction::Unsupported),
        ItemShape::UnitStruct => Ok(Extraction::Unit),
        ItemShape::TupleStruct(n) => Ok(Extraction::Tuple(n)),
    }
}

/// Decides how the derived `FromPyObject` of an item reads it.
pub fn from_py_object_plan(shape: ItemShape) -> (r: Result<Extraction, DeriveError>)
    ensures
        r == from_py_object_plan_spec(shape),
{
    match shape {
        ItemShape::Enum | ItemShape::Union => Err(DeriveError::NotAStruct),
        ItemShape::NamedStruct => Ok(Extraction::Unsupported),
        ItemShape::UnitStruct => Ok(Extraction::Unit),
        ItemShape::TupleStruct(n) => Ok(Extraction::Tuple(n)),
    }
}

} // verus!
