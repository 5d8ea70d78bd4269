//! The decisions of the C-API shim, on plain values: which index a call may touch, the
//! bounds of a list slice, the next step of a dictionary walk, and the parsing of the
//! `"l|l"` argument format. The pointer work round them is done by the caller.
use vstd::prelude::*;
use vstd::string::StringExecFns;
use crate::text::{chars_of, eq_exec};

verus! {

/// Opaque object type, only ever handled behind a raw pointer.
pub struct PyObject {
    _opaque: [usize; 0],
}

/// Opaque type-object type, only ever handled behind a raw pointer.
pub struct PyTypeObject([u8; 0]);

/// Opaque dictionary type, only ever handled behind a raw pointer.
pub struct PyDictObject {
    _opaque: [usize; 0],
    pub ma_used: isize,
}

/// The index `i` into a sequence of `len` items, where it is one. The item calls
/// (`PyList_SetItem`, `PyList_GET_ITEM`, `PyTuple_GET_ITEM`) fail on any other `i`.
pub fn checked_index(i: isize, len: usize) -> (r: Option<usize>)
    ensures
        r is Some <==> 0 <= i < len,
        r matches Some(k) ==> k as int == i as int,
{
    if i < 0 {
        None
    } else if (i as usize) < len {
        Some(i as usize)
    } else {
        None
    }
}

/// `x` clamped to `lo..=hi`.
pub open spec fn clamp(x: int, lo: int, hi: int) -> int {
    if x < lo {
        lo
    } else if x > hi {
        hi
    } else {
        x
    }
}

/// The item range `start..end` that `PyList_GetSlice(list, low, high)` copies out of a
/// list of `len` items, as `list[low:high]` does in Python for non-negative bounds:
/// `low` clamped to `0..=len`, and `high` clamped to `start..=len`, so that a range that
/// is empty or lies past the end gives an empty slice.
pub fn slice_bounds(low: isize, high: isize, len: usize) -> (r: (usize, usize))
    requires
        len <= isize::MAX,
    ensures
        r.0 as int == clamp(low as int, 0, len as int),
        r.1 as int == clamp(high as int, r.0 as int, len as int),
        r.0 <= r.1 <= len,
{
    let n = len as isize;
    let start: isize = if low < 0 {
        0
    } else if low > n {
        n
    } else {
        low
    };
    let end: isize = if high < start {
        start
    } else if high > n {
        n
    } else {
        high
    };
    (start as usize, end as usize)
}

/// One step of the walk that `PyDict_Next` makes over a dictionary of `len` entries: at
/// position `pos`, the index of the entry it yields and the next position, or `None`
/// once `pos` is not an index.
pub open spec fn dict_step(pos: int, len: int) -> Option<(int, int)> {
    if 0 <= pos < len {
        Some((pos, pos + 1))
    } else {
        None
    }
}

/// The position after `k` calls of `PyDict_Next` that start at position 0; a call that
/// yields nothing leaves the position as it is.
pub open spec fn dict_walk_position(len: int, k: nat) -> int
    decreases k,
{
    if k == 0 {
        0
    } else {
        let p = dict_walk_position(len, (k - 1) as nat);
        match dict_step(p, len) {
            Some((_, next)) => next,
            None => p,
        }
    }
}

/// Walking a dictionary of `len` entries from position 0, call `k` yields entry `k` for
/// each `k < len`, once and in order, and every later call yields nothing.
pub proof fn lemma_dict_walk_visits_each_entry_once(len: nat, k: nat)
    ensures
        dict_walk_position(len as int, k) == if k <= len {
            k as int
        } else {
            len as int
        },
        k < len ==> dict_step(dict_walk_position(len as int, k), len as int) == Some((k as int, (k + 1) as int)),
        k >= len ==> dict_step(dict_walk_position(len as int, k), len as int) is None,
    decreases k,
{
    if k > 0 {
        lemma_dict_walk_visits_each_entry_once(len, (k - 1) as nat);
    }
}

/// One step of `PyDict_Next` over a dictionary of `len` entries: at position `pos` it
/// yields the entry at that index and the next position, and reports exhaustion (`None`)
/// once `pos` is not an index; a negative position is never one.
pub fn dict_next_position(pos: isize, len: usize) -> (r: Option<(usize, isize)>)
    requires
        len <= isize::MAX,
    ensures
        r is Some <==> 0 <= pos < len,
        r matches Some((k, next)) ==> k as int == pos as int && next as int == pos + 1,
        match r {
            Some((k, next)) => dict_step(pos as int, len as int) == Some((k as int, next as int)),
            None => dict_step(pos as int, len as int) is None,
        },
{
    if pos < 0 {
        None
    } else if (pos as usize) < len {
        Some((pos as usize, pos + 1))
    } else {
        None
    }
}

/// The number of `None` items a list made by `PyList_New(size)` starts with: `size`, or
/// none for a size that is not positive.
pub fn new_list_len(size: isize) -> (r: usize)
    ensures
        r as int == (if size > 0 { size as int } else { 0 }),
{
    if size > 0 {
        size as usize
    } else {
        0
    }
}

/// Which of the two `"l|l"` arguments a failure is about.
#[derive(Debug, Clone, Copy, PartialEq, Eq, Structural)]
pub enum ArgSlot {
    First,
    Second,
}

/// Why `PyArg_ParseTupleAndKeywords` fails.
#[derive(Debug, Clone, Copy, PartialEq, Eq, Structural)]
pub enum ParseArgsError {
    /// The format is not `"l|l"`, the only one supported.
    UnsupportedFormat,
    /// The positional arguments are not a tuple.
    ArgsNotTuple,
    /// There are not one or two positional arguments.
    ArgumentCount,
    /// The argument is not an integer ("<name> must be an integer").
    NotAnInteger(ArgSlot),
    /// The keyword arguments are not a dictionary.
    KeywordsNotDict,
}

/// The Python exception that a failure of `PyArg_ParseTupleAndKeywords` raises.
#[derive(Debug, Clone, Copy, PartialEq, Eq, Structural)]
pub enum ParseArgsException {
    NotImplementedError,
    TypeError,
}

/// The exception and message that `PyArg_ParseTupleAndKeywords` raises for the failure
/// `e`, where `first` and `second` are the names of the two keywords and `format_shown`
/// is the format as its `Debug` rendering shows it.
pub open spec fn parse_args_failure(
    e: ParseArgsError,
    first: Seq<char>,
    second: Seq<char>,
    format_shown: Seq<char>,
) -> (ParseArgsException, Seq<char>) {
    match e {
        ParseArgsError::UnsupportedFormat => (
            ParseArgsException::NotImplementedError,
            "PyArg_ParseTupleAndKeywords only supports format 'l|l', got "@ + format_shown,
        ),
        ParseArgsError::ArgsNotTuple => (ParseArgsException::TypeError, "args must be a tuple"@),
        ParseArgsError::ArgumentCount => (
            ParseArgsException::TypeError,
            "expected 1 or 2 positional arguments"@,
        ),
        ParseArgsError::NotAnInteger(slot) => (
            ParseArgsException::TypeError,
            match slot {
                ArgSlot::First => first,
                ArgSlot::Second => second,
            } + " must be an integer"@,
        ),
        ParseArgsError::KeywordsNotDict => (ParseArgsException::TypeError, "keywords must be a dict"@),
    }
}

/// The exception and message that `PyArg_ParseTupleAndKeywords` raises for the failure
/// `e` (see `parse_args_failure`).
pub fn parse_args_error(e: ParseArgsError, first: &str, second: &str, format_shown: &str) -> (r: (
    ParseArgsException,
    String,
))
    ensures
        (r.0, r.1@) == parse_args_failure(e, first@, second@, format_shown@),
{
    match e {
        ParseArgsError::UnsupportedFormat => (
            ParseArgsException::NotImplementedError,
            String::from_str("PyArg_ParseTupleAndKeywords only supports format 'l|l', got ").concat(
                format_shown,
            ),
        ),
        ParseArgsError::ArgsNotTuple => (ParseArgsException::TypeError, String::from_str("args must be a tuple")),
        ParseArgsError::ArgumentCount => (
            ParseArgsException::TypeError,
            String::from_str("expected 1 or 2 positional arguments"),
        ),
        ParseArgsError::NotAnInteger(slot) => {
            let name = match slot {
                ArgSlot::First => first,
                ArgSlot::Second => second,
            };
            (ParseArgsException::TypeError, String::from_str(name).concat(" must be an integer"))
        },
        ParseArgsError::KeywordsNotDict => (
            ParseArgsException::TypeError,
            String::from_str("keywords must be a dict"),
        ),
    }
}

/// The keyword arguments of a call, as far as the `"l|l"` format reads them.
#[derive(Debug, Clone, Copy, PartialEq, Eq, Structural)]
pub enum KeywordArgs {
    /// No keyword dictionary was passed.
    Absent,
    /// Something other than a dictionary was passed.
    NotDict,
    /// A dictionary; for each of the two keyword names, `None` where the dictionary lacks
    /// it, `Some(Some(v))` where it maps it to the integer `v`, and `Some(None)` where it
    /// maps it to something else.
    Dict { first: Option<Option<i64>>, second: Option<Option<i64>> },
}

/// Applies a keyword value to an argument: an absent keyword keeps the value, an integer
/// replaces it, anything else is an error.
pub open spec fn with_keyword(value: i64, kw: Option<Option<i64>>, slot: ArgSlot) -> Result<i64, ParseArgsError> {
    match kw {
        None => Ok(value),
        Some(Some(v)) => Ok(v),
        Some(None) => Err(ParseArgsError::NotAnInteger(slot)),
    }
}

/// What `PyArg_ParseTupleAndKeywords` with one or two integer arguments gives, in the
/// order it checks: the format, the positional tuple and its length, the first and then
/// the second positional value (0 when there is only one), and then the keywords, which
/// override the positional values, the first before the second.
pub open spec fn parse_args(
    format: Seq<char>,
    positional: Option<Seq<Option<i64>>>,
    kw: KeywordArgs,
) -> Result<(i64, i64), ParseArgsError> {
    if format != "l|l"@ {
        Err(ParseArgsError::UnsupportedFormat)
    } else {
        match positional {
            None => Err(ParseArgsError::ArgsNotTuple),
            Some(p) => if p.len() == 0 || p.len() > 2 {
                Err(ParseArgsError::ArgumentCount)
            } else {
                match p[0] {
                    None => Err(ParseArgsError::NotAnInteger(ArgSlot::First)),
                    Some(a) => {
                        let b0 = if p.len() == 2 { p[1] } else { Some(0i64) };
                        match b0 {
                            None => Err(ParseArgsError::NotAnInteger(ArgSlot::Second)),
                            Some(b) => match kw {
                                KeywordArgs::Absent => Ok((a, b)),
                                KeywordArgs::NotDict => Err(ParseArgsError::KeywordsNotDict),
                                KeywordArgs::Dict { first, second } => match with_keyword(a, first, ArgSlot::First) {
                                    Err(e) => Err(e),
                                    Ok(a2) => match with_keyword(b, second, ArgSlot::Second) {
                                        Err(e) => Err(e),
                                        Ok(b2) => Ok((a2, b2)),
                                    },
                                },
                            },
                        }
                    },
                }
            },
        }
    }
}

fn apply_keyword(value: i64, kw: Option<Option<i64>>, slot: ArgSlot) -> (r: Result<i64, ParseArgsError>)
    ensures
        r == with_keyword(value, kw, slot),
{
    match kw {
        None => Ok(value),
        Some(Some(v)) => Ok(v),
        Some(None) => Err(ParseArgsError::NotAnInteger(slot)),
    }
}

/// Parses the arguments of a call with the format `"l|l"`: one required and one optional
/// integer, each also accepted by keyword. `positional` is `None` where the positional
/// arguments are not a tuple; each of its items is `None` where it is not an integer.
pub fn parse_tuple_and_keywords(
    format: &str,
    positional: Option<&Vec<Option<i64>>>,
    kw: KeywordArgs,
) -> (r: Result<(i64, i64), ParseArgsError>)
    ensures
        r == parse_args(
            format@,
            match positional {
                Some(p) => Some(p@),
                None => None,
            },
            kw,
        ),
{
    let f = chars_of(format);
    if !eq_exec(&f, "l|l") {
        return Err(ParseArgsError::UnsupportedFormat);
    }
    let p = match positional {
        None => {
            return Err(ParseArgsError::ArgsNotTuple);
        },
        Some(p) => p,
    };
    if p.len() == 0 || p.len() > 2 {
        return Err(ParseArgsError::ArgumentCount);
    }
    let a = match p[0] {
        None => {
            return Err(ParseArgsError::NotAnInteger(ArgSlot::First));
        },
        Some(a) => a,
    };
    let b0 = if p.len() == 2 {
        p[1]
    } else {
        Some(0i64)
    };
    let b = match b0 {
        None => {
            return Err(ParseArgsError::NotAnInteger(ArgSlot::Second));
        },
        Some(b) => b,
    };
    match kw {
        KeywordArgs::Absent => Ok((a, b)),
        KeywordArgs::NotDict => Err(ParseArgsError::KeywordsNotDict),
        KeywordArgs::Dict { first, second } => {
            let a2 = match apply_keyword(a, first, ArgSlot::First) {
                Err(e) => {
                    return Err(e);
                },
                Ok(v) => v,
            };
            match apply_keyword(b, second, ArgSlot::Second) {
                Err(e) => Err(e),
                Ok(b2) => Ok((a2, b2)),
            }
        },
    }
}

/// Whether `PyArg_ParseTupleAndKeywords` gets as far as reading the keyword names: the
/// format is `"l|l"` and the positional arguments are a tuple of one or two items.
pub open spec fn reaches_keyword_names(format: Seq<char>, positional: Option<Seq<Option<i64>>>) -> bool {
    &&& format == "l|l"@
    &&& positional matches Some(p) && 1 <= p.len() <= 2
}

/// The positional arguments as a sequence, where they are a tuple.
pub open spec fn positional_view(positional: Option<&Vec<Option<i64>>>) -> Option<Seq<Option<i64>>> {
    match positional {
        Some(p) => Some(p@),
        None => None,
    }
}

/// Whether the keyword names are read (`reaches_keyword_names`); where they are not, the
/// call fails whatever the keywords are, with the failure it gives without them.
pub fn reads_keyword_names(format: &str, positional: Option<&Vec<Option<i64>>>) -> (r: bool)
    ensures
        r == reaches_keyword_names(format@, positional_view(positional)),
        !r ==> parse_args(format@, positional_view(positional), KeywordArgs::Absent) is Err,
        !r ==> forall|kw: KeywordArgs| #[trigger] parse_args(format@, positional_view(positional), kw)
            == parse_args(format@, positional_view(positional), KeywordArgs::Absent),
{
    let f = chars_of(format);
    if !eq_exec(&f, "l|l") {
        return false;
    }
    match positional {
        None => false,
        Some(p) => 1 <= p.len() && p.len() <= 2,
    }
}

/// A keyword argument that names an integer overrides the positional value in its place,
/// and a keyword that is not given leaves the positional value (or, for the second
/// argument given by neither, 0).
pub proof fn lemma_keywords_override_positionals(
    positional: Seq<Option<i64>>,
    first: Option<Option<i64>>,
    second: Option<Option<i64>>,
)
    requires
        parse_args("l|l"@, Some(positional), KeywordArgs::Dict { first, second }) is Ok,
    ensures
        ({
            let (a, b) = parse_args("l|l"@, Some(positional), KeywordArgs::Dict { first, second })->Ok_0;
            &&& first matches Some(Some(v)) ==> a == v
            &&& first is None ==> positional[0] == Some(a)
            &&& second matches Some(Some(v)) ==> b == v
            &&& second is None && positional.len() == 2 ==> positional[1] == Some(b)
            &&& second is None && positional.len() == 1 ==> b == 0
        }),
{
}

} // verus!
