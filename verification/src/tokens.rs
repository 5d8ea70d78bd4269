//! The calls into the crates that read Rust syntax and render tokens.
use vstd::prelude::*;

verus! {

/// An ASCII letter.
pub open spec fn is_ascii_letter(c: char) -> bool {
    ('a' <= c && c <= 'z') || ('A' <= c && c <= 'Z')
}

/// A character that may follow the first one of a plain identifier.
pub open spec fn is_ident_tail(c: char) -> bool {
    is_ascii_letter(c) || ('0' <= c && c <= '9') || c == '_'
}

/// A plain ASCII identifier: an ASCII letter, then ASCII letters, digits or `_`.
pub open spec fn plain_ident(s: Seq<char>) -> bool {
    &&& s.len() > 0
    &&& is_ascii_letter(s[0])
    &&& forall|i: int| 1 <= i < s.len() ==> is_ident_tail(#[trigger] s[i])
}

/// A plain ASCII identifier that starts with a capital letter, as type names do. No Rust
/// keyword but `Self` has that shape, and `Self` is a path too.
pub open spec fn capital_ident(s: Seq<char>) -> bool {
    plain_ident(s) && 'A' <= s[0] && s[0] <= 'Z'
}

/// What every answer of `is_path_text` about the text `t` (where there is one) satisfies:
/// an accepted text is not empty and does not start with `=`, and a capitalised plain
/// identifier is accepted. Without a text the answer is `false`.
pub open spec fn path_answer_ok(t: Option<Seq<char>>, ok: bool) -> bool {
    &&& ok ==> (t matches Some(x) && x.len() > 0 && x[0] != '=')
    &&& (t matches Some(x) && capital_ident(x)) ==> ok
}

/// A character that a type written in Rust may hold outside literals and comments:
/// identifier characters, the brackets, `,`, `:`, `;`, `&`, `'` and the space.
pub open spec fn is_type_char(c: char) -> bool {
    ||| is_ident_tail(c)
    ||| c == '<' || c == '>' || c == '(' || c == ')' || c == '[' || c == ']'
    ||| c == ',' || c == ':' || c == ';' || c == '&' || c == '\'' || c == ' '
}

/// Text made of type characters only (`is_type_char`): it holds no comment, string
/// literal, `#` or `-`, so every letter in it lexes into a token.
pub open spec fn type_like(s: Seq<char>) -> bool {
    forall|i: int| 0 <= i < s.len() ==> is_type_char(#[trigger] s[i])
}

/// The text holds an ASCII letter.
pub open spec fn has_ascii_letter(s: Seq<char>) -> bool {
    exists|i: int| 0 <= i < s.len() && is_ascii_letter(#[trigger] s[i])
}

/// What every answer `r` of `render_tokens` about the text `s` satisfies: a plain
/// identifier, and `()`, render as themselves; text of type characters that holds a
/// letter never renders as `()`, since each of its letters lands in a token and every
/// token is written out; and text of type characters whose first token is a
/// parenthesised group renders starting with `(`, as nothing is written before the
/// first token.
pub open spec fn render_answer_ok(s: Seq<char>, r: Option<Seq<char>>) -> bool {
    &&& (plain_ident(s) || s == "()"@) ==> r == Some(s)
    &&& (type_like(s) && has_ascii_letter(s)) ==> r != Some("()"@)
    &&& (type_like(s) && opens_with_paren(s)) ==> (r matches Some(t) ==> t.len() > 0 && t[0] == '(')
}

/// The first character of the text other than spaces is `(`: its first token is a
/// parenthesised group.
pub open spec fn opens_with_paren(s: Seq<char>) -> bool {
    exists|k: int| 0 <= k < s.len() && s[k] == '(' && forall|j: int| 0 <= j < k ==> #[trigger] s[j] == ' '
}

/// What `str::to_uppercase` makes of the text.
pub uninterp spec fn upper_case(text: Seq<char>) -> Seq<char>;

/// Calls `syn::parse_str::<syn::Path>` and reports whether it succeeded. Inside a
/// procedural macro `proc_macro2` lexes the text with the running compiler, whose answer
/// may differ between compiler versions on unusual text, so the clauses state only what
/// every lexer gives: empty text is no path, nor is text that starts with `=` (a path
/// starts with an identifier or `::`), and a capitalised plain identifier, such as
/// `Base`, is a path of one segment.
#[verifier::external_body]
pub(crate) fn is_path_text(s: &str) -> (r: bool)
    ensures
        path_answer_ok(Some(s@), r),
{
    syn::parse_str::<syn::Path>(s).is_ok()
}

/// Parses the text into a `proc_macro2::TokenStream` and renders the stream back to
/// text with its `Display` impl; `None` where the text does not lex. Inside a procedural
/// macro `proc_macro2` hands both steps to the compiler, whose spacing between tokens
/// may differ between compiler versions, so the clauses state only what every renderer
/// gives (`render_answer_ok`): a single plain identifier renders as itself, and so does
/// the empty tuple `()`; text of type characters with a letter in it never renders as
/// `()`, as the renderer writes out every token, idents and literals as they were lexed;
/// and such text that opens with a parenthesised group renders starting with `(`.
#[verifier::external_body]
pub(crate) fn render_tokens(s: &str) -> (r: Option<String>)
    ensures
        plain_ident(s@) || s@ == "()"@ ==> r is Some && r->0@ == s@,
        render_answer_ok(s@, match r {
            Some(t) => Some(t@),
            None => None,
        }),
{
    match s.parse::<proc_macro2::TokenStream>() {
        Ok(ts) => Some(ts.to_string()),
        Err(_) => None,
    }
}

/// Calls `str::to_uppercase`; the result depends on the text alone, and is named
/// `upper_case`.
#[verifier::external_body]
pub(crate) fn to_upper(s: &str) -> (r: String)
    ensures
        r@ == upper_case(s@),
{
    s.to_uppercase()
}

} // verus!
