# pyo3_rustpython

A pyo3-style binding layer over the RustPython interpreter. The crate is written in
Verus: `src/` holds the rules of the layer, each with a contract that Verus proves, and
`app/` holds the objects and calls of the interpreter around them.

## Layout

- `src/text.rs`: character-level helpers (trimming, prefixes, splitting) with their
  specifications.
- `src/tokens.rs`: the calls into `syn` and `proc_macro2` that read Rust syntax and
  render tokens. Inside a procedural macro their answers come from the running compiler,
  so the functions that use them state what holds whatever the answer, and take the
  answer as an argument where the rest is stated exactly.
- `src/attrs.rs`, `src/signature.rs`, `src/results.rs`, `src/methods.rs`: what the
  attribute macros (`#[pyclass]`, `#[pyfunction]`, `#[pymethods]`, `#[pymodule]`,
  `#[derive(FromPyObject)]`) decide from the text of their input: the options of a class,
  how each parameter is taken, how each result is handed to Python, which methods need a
  generated wrapper, and the names of the generated items.
- `src/codegen.rs`: the code that the attribute macros emit, as text: the wrapper and
  exported symbol of a `#[pyfunction]`, the exec slot and definition of a `#[pymodule]`,
  the items of a `#[pyclass]` struct or enum, the `FromPyObject` impl of
  `#[derive(FromPyObject)]`, and for `#[pymethods]` the wrappers of methods, slot dunders,
  getters, setters, static and class methods and iterators, the `Constructor` impl of
  `#[new]` and the whole impl block. Each generator's result is stated exactly by a spec
  function over the plans of the modules above; where a `PyResult` value type is
  rendered again by the token renderer, only the choice among the stated conversions is
  promised.
- `src/slots.rs`: which type slots a class gets from the names it defines, with the
  aliases under which slot methods are registered.
- `src/instance.rs`: when a bound object may be cast to another marker type.
- `src/ffi.rs`: the index checks, slice bounds, dictionary walk and `"l|l"` argument
  parsing of the C-API shim.
- `src/pyclass.rs`, `src/buffer.rs`, `src/sync.rs`, `src/conversion.rs`, `src/types/`:
  comparison operations and their codes, typed buffers, the once-cell, truth-value
  arguments, and the marker types.
- `tests/`: tests of the library on concrete values.
- `app/macros.rs`: the token-level glue of the macros: it parses the macro input with
  `syn`, calls the generators of `src/codegen.rs` and parses their text back into tokens.
  The `#[proc_macro_attribute]` entry points themselves need a crate of the `proc-macro`
  type, which forwards to these functions.
- `app/`: the interpreter side: the `Python` token, `Bound`/`Py` handles, errors and
  exceptions, conversions, the methods of each type, the slot wrappers and the C-API
  functions, each calling the library for its decisions.
