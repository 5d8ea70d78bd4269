//! Python modules, and the dotted paths by which they are imported.
use vstd::prelude::*;
use crate::text::{chars_of, find_char, split_char, split_char_exec, string_from_chars, views};

verus! {

/// Marker for a module object.
pub struct PyModule;

/// Stands for a function wrapped for `add_wrapped`; the wrapping itself goes through
/// `wrap_pyfunction!`.
pub struct WrapPyFn;

/// The names held by a list of strings.
pub open spec fn string_views(v: Seq<String>) -> Seq<Seq<char>> {
    v.map_values(|s: String| s@)
}

/// The steps of an import by dotted path: the top-level module is imported by the first
/// piece, and each further piece is looked up as an attribute of the module before it.
pub open spec fn import_steps(name: Seq<char>) -> Seq<Seq<char>> {
    split_char(name, '.')
}

/// Splits a dotted module path into the steps of its import; there is always a first
/// piece, the top-level module.
pub fn import_path(name: &str) -> (r: Vec<String>)
    ensures
        string_views(r@) == import_steps(name@),
        r@.len() >= 1,
{
    let chars = chars_of(name);
    let pieces = split_char_exec(&chars, '.');
    let n = pieces.len();
    let mut out: Vec<String> = Vec::new();
    let mut i: usize = 0;
    while i < n
        invariant
            n == pieces@.len(),
            i <= n,
            views(pieces@) == split_char(name@, '.'),
            out@.len() == i,
            string_views(out@) == views(pieces@).take(i as int),
        decreases n - i,
    {
        let s = string_from_chars(&pieces[i]);
        let ghost prev = out@;
        out.push(s);
        proof {
            assert(views(pieces@)[i as int] == pieces@[i as int]@);
            assert forall|j: int| 0 <= j <= i implies #[trigger] string_views(out@)[j]
                == views(pieces@).take(i + 1)[j] by {
                if j < i {
                    assert(out@[j] == prev[j]);
                    assert(string_views(prev)[j] == views(pieces@).take(i as int)[j]);
                }
            }
            assert(string_views(out@) =~= views(pieces@).take(i + 1));
        }
        i = i + 1;
    }
    proof {
        assert(views(pieces@).take(n as int) =~= views(pieces@));
        reveal_with_fuel(split_char, 1);
    }
    out
}

/// The dotted path that the pieces make when written with `.` between them.
pub open spec fn join_dotted(parts: Seq<Seq<char>>) -> Seq<char>
    decreases parts.len(),
{
    if parts.len() <= 1 {
        if parts.len() == 1 {
            parts[0]
        } else {
            Seq::empty()
        }
    } else {
        parts[0] + seq!['.'] + join_dotted(parts.drop_first())
    }
}

proof fn lemma_find_char_found(s: Seq<char>, c: char)
    ensures
        find_char(s, c) matches Some(i) ==> 0 <= i < s.len() && s[i] == c,
    decreases s.len(),
{
    if s.len() > 0 && s[0] != c {
        lemma_find_char_found(s.drop_first(), c);
    }
}

proof fn lemma_split_nonempty(s: Seq<char>, c: char)
    ensures
        split_char(s, c).len() >= 1,
{
    reveal_with_fuel(split_char, 1);
}

/// The import steps of a dotted path, written with `.` between them, give the path
/// back: splitting loses nothing of the name.
pub proof fn lemma_import_steps_rejoin(name: Seq<char>)
    ensures
        join_dotted(import_steps(name)) == name,
    decreases name.len(),
{
    lemma_find_char_found(name, '.');
    match find_char(name, '.') {
        Some(i) => {
            let rest = name.skip(i + 1);
            lemma_import_steps_rejoin(rest);
            lemma_split_nonempty(rest, '.');
            let parts = split_char(name, '.');
            assert(parts == seq![name.take(i)] + split_char(rest, '.'));
            assert(parts.drop_first() =~= split_char(rest, '.'));
            assert(parts.len() >= 2);
            assert(parts[0] == name.take(i));
            assert(name =~= name.take(i) + seq!['.'] + rest);
        },
        None => {
            assert(split_char(name, '.') == seq![name]);
        },
    }
}

} // verus!
