//! Parsing of `#[api_endpoint(method = "...", path = "...", name = "...", depth = N)]` arguments.
//!
//! The attribute's tokens arrive as a sequence of [`AttrToken`]s. The grammar is a
//! list of `key = value` entries, each optionally followed by a comma. A key is an
//! identifier that is not a Rust keyword. A value is a Rust expression, and it must
//! be a lone literal: a string for `method`, `path`, `name` and `field_errors`, an
//! integer for `depth`. A literal is the whole expression unless the token after it
//! continues the expression (an operator, `.`, `?`, `as`, or a call or index
//! group). A later entry for a key replaces an earlier one.

use vstd::prelude::*;

use crate::text::{push_str, string_is};

verus! {

/// The delimiter of a token group.
#[derive(Debug, PartialEq, Eq, Clone, Copy)]
pub enum Delimiter {
    /// `( ... )`
    Parenthesis,
    /// `[ ... ]`
    Bracket,
    /// `{ ... }`
    Brace,
    /// A group without visible delimiters.
    Invisible,
}

/// One token of the attribute's argument list.
#[derive(Debug, PartialEq, Eq, Clone)]
pub enum AttrToken {
    /// An identifier, such as `method` (keywords included).
    Ident(String),
    /// A punctuation character; `joint` when the next character belongs to the
    /// same operator, as the first `=` of `==`.
    Punct { ch: char, joint: bool },
    /// A string literal, by its value.
    StrLit(String),
    /// An integer literal, by its base-10 digits (without suffix or underscores).
    IntLit(String),
    /// Any other literal.
    OtherLit,
    /// A delimited group.
    Group(Delimiter),
}

/// A literal argument value and the position of its token.
#[derive(Debug, PartialEq, Eq)]
pub struct LitArg {
    pub value: String,
    pub at: usize,
}

/// Parsed arguments from the `#[api_endpoint(...)]` attribute.
#[derive(Debug, PartialEq, Eq)]
pub struct EndpointArgs {
    /// HTTP method string, e.g. `"GET"`.
    pub method: LitArg,
    /// URL path relative to `/api/`, e.g. `"users/profile"`.
    pub path: LitArg,
    /// Optional override for the generated TypeScript name (`PascalCase`).
    /// Defaults to the name derived from `method` + `path` (e.g. `"GET"` + `"foo/bar"` →
    /// `"GetFooBar"`).
    pub name: Option<LitArg>,
    /// Number of leading path segments to strip when emitting the actix route path,
    /// as the base-10 digits of the integer literal.
    pub depth: Option<LitArg>,
    /// Optional name of a Rust type (e.g. `"MyFieldErrorEnum"`) describing the per-message
    /// field tag emitted on `success: false` responses.
    pub field_errors: Option<LitArg>,
}

/// The entries seen so far while scanning the attribute.
pub struct ArgsState {
    pub method: Option<LitArg>,
    pub path: Option<LitArg>,
    pub name: Option<LitArg>,
    pub depth: Option<LitArg>,
    pub field_errors: Option<LitArg>,
}

/// Why the attribute's arguments were refused; `at` is the position of the
/// offending token, and `end` tells that the input ended there.
#[derive(Debug, PartialEq, Eq)]
pub enum ArgsError {
    ExpectedIdent { at: usize },
    KeywordKey { at: usize, key: String },
    ExpectedEq { at: usize, end: bool },
    UnknownKey { at: usize, key: String },
    ExpectedValue { at: usize, end: bool },
    NotStrLit { at: usize, key: String },
    NotIntLit { at: usize, key: String },
    MissingMethod,
    MissingPath,
}

// ---------------------------------------------------------------------------
// Specification
// ---------------------------------------------------------------------------

/// Whether `s` is a Rust keyword, which cannot stand as an identifier.
pub open spec fn is_keyword(s: Seq<char>) -> bool {
    s == "_"@
        || s == "abstract"@
        || s == "as"@
        || s == "async"@
        || s == "await"@
        || s == "become"@
        || s == "box"@
        || s == "break"@
        || s == "const"@
        || s == "continue"@
        || s == "crate"@
        || s == "do"@
        || s == "dyn"@
        || s == "else"@
        || s == "enum"@
        || s == "extern"@
        || s == "false"@
        || s == "final"@
        || s == "fn"@
        || s == "for"@
        || s == "if"@
        || s == "impl"@
        || s == "in"@
        || s == "let"@
        || s == "loop"@
        || s == "macro"@
        || s == "match"@
        || s == "mod"@
        || s == "move"@
        || s == "mut"@
        || s == "override"@
        || s == "priv"@
        || s == "pub"@
        || s == "ref"@
        || s == "return"@
        || s == "Self"@
        || s == "self"@
        || s == "static"@
        || s == "struct"@
        || s == "super"@
        || s == "trait"@
        || s == "true"@
        || s == "try"@
        || s == "type"@
        || s == "typeof"@
        || s == "unsafe"@
        || s == "unsized"@
        || s == "use"@
        || s == "virtual"@
        || s == "where"@
        || s == "while"@
        || s == "yield"@
}

/// Whether `key` names an argument whose value is a string literal.
pub open spec fn is_str_key(key: Seq<char>) -> bool {
    key == "method"@ || key == "path"@ || key == "name"@ || key == "field_errors"@
}

/// Whether `key` names an argument whose value is an integer literal.
pub open spec fn is_int_key(key: Seq<char>) -> bool {
    key == "depth"@
}

/// Whether the token is the punctuation character `c`.
pub open spec fn is_punct(t: AttrToken, c: char) -> bool {
    match t {
        AttrToken::Punct { ch, .. } => ch == c,
        _ => false,
    }
}

/// Whether the keyword `s` begins an expression wherever it stands.
pub open spec fn is_expr_keyword(s: Seq<char>) -> bool {
    s == "_"@
        || s == "become"@
        || s == "break"@
        || s == "const"@
        || s == "continue"@
        || s == "crate"@
        || s == "false"@
        || s == "for"@
        || s == "if"@
        || s == "let"@
        || s == "loop"@
        || s == "match"@
        || s == "move"@
        || s == "return"@
        || s == "Self"@
        || s == "self"@
        || s == "static"@
        || s == "super"@
        || s == "true"@
        || s == "unsafe"@
        || s == "while"@
        || s == "yield"@
}

/// Whether the token at `k` is a group with delimiter `d`.
pub open spec fn is_group(toks: Seq<AttrToken>, k: int, d: Delimiter) -> bool {
    0 <= k < toks.len() && toks[k] == AttrToken::Group(d)
}

/// Whether the token at `k` is the identifier `s`.
pub open spec fn is_ident(toks: Seq<AttrToken>, k: int, s: Seq<char>) -> bool {
    0 <= k < toks.len() && match toks[k] {
        AttrToken::Ident(i) => i@ == s,
        _ => false,
    }
}

/// Whether the token at `k` is the punctuation character `c`.
pub open spec fn is_punct_at_spec(toks: Seq<AttrToken>, k: int, c: char) -> bool {
    0 <= k < toks.len() && is_punct(toks[k], c)
}

/// Whether an expression can begin at the token at `k`: any literal, group or
/// identifier that is not a keyword; a keyword that begins an expression
/// (`async` and `try` only before a block, and `async` before `move` or a
/// closure, `try` before `!` or `::`); or a prefix punctuation character.
pub open spec fn starts_expr(toks: Seq<AttrToken>, k: int) -> bool {
    match toks[k] {
        AttrToken::Punct { ch, .. } => ch == '-' || ch == '!' || ch == '*' || ch == '&' || ch
            == '|' || ch == '<' || ch == '.' || ch == '#' || ch == ':' || ch == '\'',
        AttrToken::Ident(s) => if !is_keyword(s@) {
            true
        } else if s@ == "async"@ {
            is_group(toks, k + 1, Delimiter::Brace) || is_ident(toks, k + 1, "move"@)
                || is_punct_at_spec(toks, k + 1, '|')
        } else if s@ == "try"@ {
            is_group(toks, k + 1, Delimiter::Brace) || is_punct_at_spec(toks, k + 1, '!')
                || is_punct_at_spec(toks, k + 1, ':')
        } else {
            is_expr_keyword(s@)
        },
        _ => true,
    }
}

/// Whether the token is a single-token operand: a literal or an identifier
/// that is not a keyword.
pub open spec fn is_operand(t: AttrToken) -> bool {
    match t {
        AttrToken::StrLit(_) => true,
        AttrToken::IntLit(_) => true,
        AttrToken::OtherLit => true,
        AttrToken::Ident(s) => !is_keyword(s@),
        _ => false,
    }
}

/// The character of a punctuation token.
pub open spec fn punct_char(t: AttrToken) -> char {
    match t {
        AttrToken::Punct { ch, .. } => ch,
        _ => ' ',
    }
}

/// Whether the punctuation token is joined to the next one.
pub open spec fn punct_joint(t: AttrToken) -> bool {
    match t {
        AttrToken::Punct { joint, .. } => joint,
        _ => false,
    }
}

/// Whether `c` is a one-character binary or assignment operator.
pub open spec fn is_op1(c: char) -> bool {
    c == '+' || c == '-' || c == '*' || c == '/' || c == '%' || c == '^' || c == '&' || c == '|'
        || c == '<' || c == '>' || c == '='
}

/// Whether `a` then `b` is a two-character binary or compound-assignment operator.
pub open spec fn is_op2(a: char, b: char) -> bool {
    (a == '&' && b == '&') || (a == '|' && b == '|') || (a == '<' && b == '<') || (a == '>' && b
        == '>') || (b == '=' && (a == '=' || a == '!' || a == '<' || a == '>' || a == '+' || a
        == '-' || a == '*' || a == '/' || a == '%' || a == '^' || a == '&' || a == '|'))
}

/// Whether the tokens from `k` to the end are exactly one binary or
/// assignment operator, which then lacks its right-hand operand.
pub open spec fn binop_then_end(toks: Seq<AttrToken>, k: int) -> bool {
    let n = toks.len() - k;
    0 <= k && ((n == 1 && toks[k] is Punct && is_op1(punct_char(toks[k]))) || (n == 2
        && toks[k] is Punct && toks[k + 1] is Punct && punct_joint(toks[k]) && is_op2(
        punct_char(toks[k]),
        punct_char(toks[k + 1]),
    )) || (n == 3 && toks[k] is Punct && toks[k + 1] is Punct && toks[k + 2] is Punct
        && punct_joint(toks[k]) && punct_joint(toks[k + 1]) && punct_char(toks[k]) == punct_char(
        toks[k + 1],
    ) && (punct_char(toks[k]) == '<' || punct_char(toks[k]) == '>') && punct_char(toks[k + 2])
        == '='))
}

/// Whether the token at `k`, after a complete operand, continues the
/// expression: a binary or assignment operator, `..`, `.`, `?`, `as`, or a
/// call or index group.
pub open spec fn continues_expr(toks: Seq<AttrToken>, k: int) -> bool {
    0 <= k < toks.len() && match toks[k] {
        AttrToken::Punct { ch, joint } => if ch == '!' {
            joint && k + 1 < toks.len() && is_punct(toks[k + 1], '=')
        } else if ch == '=' {
            !(joint && k + 1 < toks.len() && is_punct(toks[k + 1], '>'))
        } else {
            ch == '+' || ch == '-' || ch == '*' || ch == '/' || ch == '%' || ch == '^' || ch
                == '&' || ch == '|' || ch == '<' || ch == '>' || ch == '.' || ch == '?'
        },
        AttrToken::Ident(s) => s@ == "as"@,
        AttrToken::Group(d) => d == Delimiter::Parenthesis || d == Delimiter::Bracket,
        _ => false,
    }
}

/// The string value whose expression starts at `k`, for `key`.
pub open spec fn str_value(toks: Seq<AttrToken>, k: int, key: String) -> Result<LitArg, ArgsError> {
    if k >= toks.len() {
        Err(ArgsError::ExpectedValue { at: k as usize, end: true })
    } else if !starts_expr(toks, k) {
        Err(ArgsError::ExpectedValue { at: k as usize, end: false })
    } else if is_operand(toks[k]) && binop_then_end(toks, k + 1) {
        Err(ArgsError::ExpectedValue { at: toks.len() as usize, end: true })
    } else {
        match toks[k] {
            AttrToken::StrLit(s) => if !continues_expr(toks, k + 1) {
                Ok(LitArg { value: s, at: k as usize })
            } else {
                Err(ArgsError::NotStrLit { at: k as usize, key })
            },
            _ => Err(ArgsError::NotStrLit { at: k as usize, key }),
        }
    }
}

/// The integer value whose expression starts at `k`, for `key`.
pub open spec fn int_value(toks: Seq<AttrToken>, k: int, key: String) -> Result<LitArg, ArgsError> {
    if k >= toks.len() {
        Err(ArgsError::ExpectedValue { at: k as usize, end: true })
    } else if !starts_expr(toks, k) {
        Err(ArgsError::ExpectedValue { at: k as usize, end: false })
    } else if is_operand(toks[k]) && binop_then_end(toks, k + 1) {
        Err(ArgsError::ExpectedValue { at: toks.len() as usize, end: true })
    } else {
        match toks[k] {
            AttrToken::IntLit(s) => if !continues_expr(toks, k + 1) {
                Ok(LitArg { value: s, at: k as usize })
            } else {
                Err(ArgsError::NotIntLit { at: k as usize, key })
            },
            _ => Err(ArgsError::NotIntLit { at: k as usize, key }),
        }
    }
}

/// The value of the entry for `key` whose expression starts at `k`.
pub open spec fn entry_value(toks: Seq<AttrToken>, k: int, key: String) -> Result<LitArg, ArgsError> {
    if is_str_key(key@) {
        str_value(toks, k, key)
    } else {
        int_value(toks, k, key)
    }
}

/// The state after recording `value` for `key`.
pub open spec fn record(st: ArgsState, key: Seq<char>, value: LitArg) -> ArgsState {
    if key == "method"@ {
        ArgsState { method: Some(value), ..st }
    } else if key == "path"@ {
        ArgsState { path: Some(value), ..st }
    } else if key == "name"@ {
        ArgsState { name: Some(value), ..st }
    } else if key == "depth"@ {
        ArgsState { depth: Some(value), ..st }
    } else {
        ArgsState { field_errors: Some(value), ..st }
    }
}

/// Where scanning resumes after an entry whose value is at `k`: past an
/// optional comma.
pub open spec fn after_entry(toks: Seq<AttrToken>, k: int) -> int {
    if k + 1 < toks.len() && is_punct(toks[k + 1], ',') {
        k + 2
    } else {
        k + 1
    }
}

/// Scans the entries from position `i` on, starting from state `st`.
pub open spec fn scan_args(toks: Seq<AttrToken>, i: int, st: ArgsState) -> Result<
    ArgsState,
    ArgsError,
>
    decreases toks.len() - i,
{
    if i < 0 || i >= toks.len() {
        Ok(st)
    } else {
        match toks[i] {
            AttrToken::Ident(key) => if is_keyword(key@) {
                Err(ArgsError::KeywordKey { at: i as usize, key })
            } else if i + 1 >= toks.len() {
                Err(ArgsError::ExpectedEq { at: (i + 1) as usize, end: true })
            } else if !is_punct(toks[i + 1], '=') {
                Err(ArgsError::ExpectedEq { at: (i + 1) as usize, end: false })
            } else if !is_str_key(key@) && !is_int_key(key@) {
                Err(ArgsError::UnknownKey { at: i as usize, key })
            } else {
                match entry_value(toks, i + 2, key) {
                    Err(e) => Err(e),
                    Ok(v) => scan_args(toks, after_entry(toks, i + 2), record(st, key@, v)),
                }
            },
            _ => Err(ArgsError::ExpectedIdent { at: i as usize }),
        }
    }
}

/// The state before any entry.
pub open spec fn empty_state() -> ArgsState {
    ArgsState { method: None, path: None, name: None, depth: None, field_errors: None }
}

/// The arguments of a final scan state, or the missing one.
pub open spec fn args_of_state(st: ArgsState) -> Result<EndpointArgs, ArgsError> {
    match st.method {
        None => Err(ArgsError::MissingMethod),
        Some(method) => match st.path {
            None => Err(ArgsError::MissingPath),
            Some(path) => Ok(
                EndpointArgs {
                    method,
                    path,
                    name: st.name,
                    depth: st.depth,
                    field_errors: st.field_errors,
                },
            ),
        },
    }
}

/// What the attribute's tokens parse to.
pub open spec fn spec_parse_args(toks: Seq<AttrToken>) -> Result<EndpointArgs, ArgsError> {
    match scan_args(toks, 0, empty_state()) {
        Err(e) => Err(e),
        Ok(st) => args_of_state(st),
    }
}

/// The prefix that syn puts before a message about a missing token.
pub open spec fn end_prefix(end: bool) -> Seq<char> {
    if end {
        "unexpected end of input, "@
    } else {
        Seq::empty()
    }
}

/// The text of the diagnostic for an argument error.
pub open spec fn spec_args_message(e: ArgsError) -> Seq<char> {
    match e {
        ArgsError::ExpectedIdent { .. } => "expected identifier"@,
        ArgsError::KeywordKey { key, .. } => "expected identifier, found keyword `"@ + key@ + "`"@,
        ArgsError::ExpectedEq { end, .. } => end_prefix(end) + "expected `=`"@,
        ArgsError::UnknownKey { key, .. } => "unknown api_endpoint argument `"@ + key@
            + "`; expected `method`, `path`, `name`, `depth`, or `field_errors`"@,
        ArgsError::ExpectedValue { end, .. } => end_prefix(end) + "expected an expression"@,
        ArgsError::NotStrLit { key, .. } => "value of `"@ + key@ + "` must be a string literal"@,
        ArgsError::NotIntLit { key, .. } => "value of `"@ + key@
            + "` must be an integer literal"@,
        ArgsError::MissingMethod => "api_endpoint requires `method = \"...\"`"@,
        ArgsError::MissingPath => "api_endpoint requires `path = \"...\"`"@,
    }
}

/// The argument names are pairwise different.
proof fn lemma_keys_distinct()
    ensures
        "method"@ != "path"@,
        "method"@ != "name"@,
        "method"@ != "depth"@,
        "method"@ != "field_errors"@,
        "path"@ != "name"@,
        "path"@ != "depth"@,
        "path"@ != "field_errors"@,
        "name"@ != "depth"@,
        "name"@ != "field_errors"@,
        "depth"@ != "field_errors"@,
{
    reveal_strlit("method");
    reveal_strlit("path");
    reveal_strlit("name");
    reveal_strlit("depth");
    reveal_strlit("field_errors");
    assert("method"@.len() == 6);
    assert("path"@.len() == 4);
    assert("name"@.len() == 4);
    assert("depth"@.len() == 5);
    assert("field_errors"@.len() == 12);
    assert("path"@[0] != "name"@[0]);
}

// ---------------------------------------------------------------------------
// Laws
// ---------------------------------------------------------------------------

/// The key of an entry.
pub open spec fn entry_key(e: Seq<AttrToken>) -> Seq<char> {
    match e[0] {
        AttrToken::Ident(k) => k@,
        _ => Seq::empty(),
    }
}

/// The literal of an entry, as a string.
pub open spec fn entry_literal(e: Seq<AttrToken>) -> String {
    match e[2] {
        AttrToken::StrLit(s) => s,
        AttrToken::IntLit(s) => s,
        _ => arbitrary(),
    }
}

/// Whether `e` is one well-formed entry `key = literal,` for a known key.
pub open spec fn is_entry(e: Seq<AttrToken>) -> bool {
    &&& e.len() == 4
    &&& e[0] is Ident
    &&& !is_keyword(entry_key(e))
    &&& is_punct(e[1], '=')
    &&& is_punct(e[3], ',')
    &&& ((is_str_key(entry_key(e)) && e[2] is StrLit) || (is_int_key(entry_key(e))
        && e[2] is IntLit))
}

/// The value of an optional argument.
pub open spec fn lit_value(a: Option<LitArg>) -> Option<Seq<char>> {
    match a {
        Some(l) => Some(l.value@),
        None => None,
    }
}

/// Whether two scan states hold the same values (positions aside).
pub open spec fn same_values(s1: ArgsState, s2: ArgsState) -> bool {
    &&& lit_value(s1.method) == lit_value(s2.method)
    &&& lit_value(s1.path) == lit_value(s2.path)
    &&& lit_value(s1.name) == lit_value(s2.name)
    &&& lit_value(s1.depth) == lit_value(s2.depth)
    &&& lit_value(s1.field_errors) == lit_value(s2.field_errors)
}

/// Whether two parses agree: the same error, or arguments with the same values.
pub open spec fn same_parse(
    r1: Result<EndpointArgs, ArgsError>,
    r2: Result<EndpointArgs, ArgsError>,
) -> bool {
    match (r1, r2) {
        (Ok(a), Ok(b)) => {
            &&& a.method.value@ == b.method.value@
            &&& a.path.value@ == b.path.value@
            &&& lit_value(a.name) == lit_value(b.name)
            &&& lit_value(a.depth) == lit_value(b.depth)
            &&& lit_value(a.field_errors) == lit_value(b.field_errors)
        },
        (Err(e1), Err(e2)) => e1 == e2,
        _ => false,
    }
}

/// Whether two scans agree: the same error, or states with the same values.
pub open spec fn same_scan(r1: Result<ArgsState, ArgsError>, r2: Result<ArgsState, ArgsError>) -> bool {
    match (r1, r2) {
        (Ok(a), Ok(b)) => same_values(a, b),
        (Err(e1), Err(e2)) => e1 == e2,
        _ => false,
    }
}

/// A well-formed entry at `i` is recorded and skipped as a whole.
proof fn lemma_scan_entry(t: Seq<AttrToken>, i: int, e: Seq<AttrToken>, st: ArgsState)
    requires
        0 <= i,
        i + 4 <= t.len(),
        is_entry(e),
        t[i] == e[0],
        t[i + 1] == e[1],
        t[i + 2] == e[2],
        t[i + 3] == e[3],
    ensures
        scan_args(t, i, st) == scan_args(
            t,
            i + 4,
            record(st, entry_key(e), LitArg { value: entry_literal(e), at: (i + 2) as usize }),
        ),
{
    let key = match e[0] {
        AttrToken::Ident(k) => k,
        _ => arbitrary(),
    };
    assert(!continues_expr(t, i + 3));
    assert(after_entry(t, i + 2) == i + 4);
    lemma_keys_distinct();
    reveal_strlit("depth");
    assert(entry_value(t, i + 2, key) == Ok::<LitArg, ArgsError>(
        LitArg { value: entry_literal(e), at: (i + 2) as usize },
    ));
}

/// Recording equal values keeps states with the same values.
proof fn lemma_record_same_values(s1: ArgsState, s2: ArgsState, k: Seq<char>, v1: LitArg, v2: LitArg)
    requires
        same_values(s1, s2),
        v1.value@ == v2.value@,
    ensures
        same_values(record(s1, k, v1), record(s2, k, v2)),
{
}

/// Scans of two token sequences that agree from `i` on, from states with the
/// same values, agree; from equal states they are equal.
proof fn lemma_scan_same_tail(
    t1: Seq<AttrToken>,
    t2: Seq<AttrToken>,
    i: int,
    s1: ArgsState,
    s2: ArgsState,
)
    requires
        0 <= i,
        t1.len() == t2.len(),
        forall|j: int| i <= j < t1.len() ==> t1[j] == t2[j],
        same_values(s1, s2),
    ensures
        same_scan(scan_args(t1, i, s1), scan_args(t2, i, s2)),
        s1 == s2 ==> scan_args(t1, i, s1) == scan_args(t2, i, s2),
    decreases t1.len() - i,
{
    if i < t1.len() {
        if i + 3 < t1.len() {
            assert(t1[i + 3] == t2[i + 3]);
        }
        if i + 4 < t1.len() {
            assert(t1[i + 4] == t2[i + 4]);
        }
        if i + 2 < t1.len() {
            assert(t1[i + 2] == t2[i + 2]);
            assert(continues_expr(t1, i + 3) == continues_expr(t2, i + 3));
        }
        if i + 1 < t1.len() {
            assert(t1[i + 1] == t2[i + 1]);
        }
        assert(t1[i] == t2[i]);
        match t1[i] {
            AttrToken::Ident(key) => {
                if !is_keyword(key@) && i + 1 < t1.len() && is_punct(t1[i + 1], '=') && (
                is_str_key(key@) || is_int_key(key@)) {
                    assert(entry_value(t1, i + 2, key) == entry_value(t2, i + 2, key));
                    match entry_value(t1, i + 2, key) {
                        Ok(v) => {
                            let next = after_entry(t1, i + 2);
                            assert(next == after_entry(t2, i + 2));
                            lemma_record_same_values(s1, s2, key@, v, v);
                            lemma_scan_same_tail(
                                t1,
                                t2,
                                next,
                                record(s1, key@, v),
                                record(s2, key@, v),
                            );
                        },
                        Err(_) => {},
                    }
                }
            },
            _ => {},
        }
    }
}

/// The entries laid out one after the other.
pub open spec fn flatten(es: Seq<Seq<AttrToken>>) -> Seq<AttrToken>
    decreases es.len(),
{
    if es.len() == 0 {
        Seq::empty()
    } else {
        es[0] + flatten(es.drop_first())
    }
}

/// Whether every element is a well-formed entry.
pub open spec fn all_entries(es: Seq<Seq<AttrToken>>) -> bool {
    forall|i: int| 0 <= i < es.len() ==> is_entry(#[trigger] es[i])
}

/// Whether no two entries share a key.
pub open spec fn distinct_keys(es: Seq<Seq<AttrToken>>) -> bool {
    forall|i: int, j: int|
        0 <= i < j < es.len() ==> entry_key(#[trigger] es[i]) != entry_key(#[trigger] es[j])
}

/// The state after recording the entries in order, the first at position `p`.
pub open spec fn record_all(st: ArgsState, es: Seq<Seq<AttrToken>>, p: int) -> ArgsState
    decreases es.len(),
{
    if es.len() == 0 {
        st
    } else {
        record_all(
            record(st, entry_key(es[0]), LitArg { value: entry_literal(es[0]), at: (p + 2) as usize }),
            es.drop_first(),
            p + 4,
        )
    }
}

/// The value a state holds for the argument `k`.
pub open spec fn state_value(st: ArgsState, k: Seq<char>) -> Option<Seq<char>> {
    if k == "method"@ {
        lit_value(st.method)
    } else if k == "path"@ {
        lit_value(st.path)
    } else if k == "name"@ {
        lit_value(st.name)
    } else if k == "depth"@ {
        lit_value(st.depth)
    } else {
        lit_value(st.field_errors)
    }
}

/// The value of the last entry with key `k`, if any.
pub open spec fn key_value(es: Seq<Seq<AttrToken>>, k: Seq<char>) -> Option<Seq<char>>
    decreases es.len(),
{
    if es.len() == 0 {
        None
    } else {
        match key_value(es.drop_first(), k) {
            Some(v) => Some(v),
            None => if entry_key(es[0]) == k {
                Some(entry_literal(es[0])@)
            } else {
                None
            },
        }
    }
}

/// A run of entries is recorded and skipped as a whole.
proof fn lemma_scan_entries(
    pre: Seq<AttrToken>,
    es: Seq<Seq<AttrToken>>,
    rest: Seq<AttrToken>,
    st: ArgsState,
)
    requires
        all_entries(es),
    ensures
        flatten(es).len() == 4 * es.len(),
        scan_args(pre + flatten(es) + rest, pre.len() as int, st) == scan_args(
            pre + flatten(es) + rest,
            pre.len() + 4 * es.len() as int,
            record_all(st, es, pre.len() as int),
        ),
    decreases es.len(),
{
    if es.len() > 0 {
        let e = es[0];
        let tail = es.drop_first();
        assert(all_entries(tail)) by {
            assert forall|i: int| 0 <= i < tail.len() implies is_entry(#[trigger] tail[i]) by {
                assert(tail[i] == es[i + 1]);
            }
        }
        assert(is_entry(e));
        let t = pre + flatten(es) + rest;
        let pre2 = pre + e;
        lemma_scan_entries(pre2, tail, rest, record(
            st,
            entry_key(e),
            LitArg { value: entry_literal(e), at: (pre.len() + 2) as usize },
        ));
        assert(t =~= pre2 + flatten(tail) + rest);
        let p = pre.len() as int;
        assert(t[p] == e[0] && t[p + 1] == e[1] && t[p + 2] == e[2] && t[p + 3] == e[3]);
        lemma_scan_entry(t, p, e, st);
    }
}

/// What a state holds after recording a run of entries.
proof fn lemma_record_all_values(st: ArgsState, es: Seq<Seq<AttrToken>>, p: int, k: Seq<char>)
    requires
        all_entries(es),
        is_str_key(k) || is_int_key(k),
    ensures
        state_value(record_all(st, es, p), k) == match key_value(es, k) {
            Some(v) => Some(v),
            None => state_value(st, k),
        },
    decreases es.len(),
{
    if es.len() > 0 {
        let e = es[0];
        let tail = es.drop_first();
        assert(all_entries(tail)) by {
            assert forall|i: int| 0 <= i < tail.len() implies is_entry(#[trigger] tail[i]) by {
                assert(tail[i] == es[i + 1]);
            }
        }
        assert(is_entry(e));
        let st2 = record(st, entry_key(e), LitArg { value: entry_literal(e), at: (p + 2) as usize });
        lemma_record_all_values(st2, tail, p + 4, k);
        lemma_keys_distinct();
        reveal_strlit("depth");
    }
}

/// With distinct keys, the value for a key is that of the one entry with that key.
proof fn lemma_key_value_unique(es: Seq<Seq<AttrToken>>, k: Seq<char>)
    requires
        distinct_keys(es),
    ensures
        forall|i: int|
            0 <= i < es.len() && entry_key(es[i]) == k ==> key_value(es, k) == Some(
                entry_literal(#[trigger] es[i])@,
            ),
        key_value(es, k) is Some ==> exists|i: int|
            0 <= i < es.len() && entry_key(#[trigger] es[i]) == k,
    decreases es.len(),
{
    if es.len() > 0 {
        let tail = es.drop_first();
        assert(distinct_keys(tail)) by {
            assert forall|i: int, j: int| 0 <= i < j < tail.len() implies entry_key(
                #[trigger] tail[i],
            ) != entry_key(#[trigger] tail[j]) by {
                assert(tail[i] == es[i + 1] && tail[j] == es[j + 1]);
                assert(entry_key(es[i + 1]) != entry_key(es[j + 1]));
            }
        }
        lemma_key_value_unique(tail, k);
        assert forall|i: int| 0 <= i < es.len() && entry_key(es[i]) == k implies key_value(
            es,
            k,
        ) == Some(entry_literal(#[trigger] es[i])@) by {
            if i == 0 {
                if key_value(tail, k) is Some {
                    let j = choose|j: int| 0 <= j < tail.len() && entry_key(#[trigger] tail[j]) == k;
                    assert(tail[j] == es[j + 1]);
                    assert(entry_key(es[0]) != entry_key(es[j + 1]));
                }
            } else {
                assert(es[i] == tail[i - 1]);
            }
        }
        if key_value(es, k) is Some {
            if key_value(tail, k) is Some {
                let j = choose|j: int| 0 <= j < tail.len() && entry_key(#[trigger] tail[j]) == k;
                assert(tail[j] == es[j + 1]);
            } else {
                assert(entry_key(es[0]) == k);
            }
        }
    }
}

/// Parsing does not depend on the order of entries with different keys: any
/// reordering of such entries, before the same remaining tokens, gives the
/// same error or arguments with the same values (positions aside).
pub proof fn law_parse_ignores_order_of_distinct_keys(
    es1: Seq<Seq<AttrToken>>,
    es2: Seq<Seq<AttrToken>>,
    rest: Seq<AttrToken>,
)
    requires
        all_entries(es1),
        all_entries(es2),
        distinct_keys(es1),
        distinct_keys(es2),
        es1.len() == es2.len(),
        forall|e: Seq<AttrToken>| es1.contains(e) <==> es2.contains(e),
    ensures
        same_parse(spec_parse_args(flatten(es1) + rest), spec_parse_args(flatten(es2) + rest)),
{
    let e0 = Seq::<AttrToken>::empty();
    let t1 = flatten(es1) + rest;
    let t2 = flatten(es2) + rest;
    lemma_scan_entries(e0, es1, rest, empty_state());
    lemma_scan_entries(e0, es2, rest, empty_state());
    assert(e0 + flatten(es1) + rest =~= t1);
    assert(e0 + flatten(es2) + rest =~= t2);
    let n: int = 4 * es1.len() as int;
    let s1 = record_all(empty_state(), es1, 0);
    let s2 = record_all(empty_state(), es2, 0);
    assert forall|k: Seq<char>| is_str_key(k) || is_int_key(k) implies #[trigger] state_value(
        s1,
        k,
    ) == state_value(s2, k) by {
        lemma_record_all_values(empty_state(), es1, 0, k);
        lemma_record_all_values(empty_state(), es2, 0, k);
        lemma_key_value_unique(es1, k);
        lemma_key_value_unique(es2, k);
        if key_value(es1, k) is Some {
            let i = choose|i: int| 0 <= i < es1.len() && entry_key(#[trigger] es1[i]) == k;
            assert(es1.contains(es1[i]));
            assert(es2.contains(es1[i]));
            let j = choose|j: int| 0 <= j < es2.len() && es2[j] == es1[i];
            assert(entry_key(es2[j]) == k);
        } else if key_value(es2, k) is Some {
            let j = choose|j: int| 0 <= j < es2.len() && entry_key(#[trigger] es2[j]) == k;
            assert(es2.contains(es2[j]));
            assert(es1.contains(es2[j]));
            let i = choose|i: int| 0 <= i < es1.len() && es1[i] == es2[j];
            assert(entry_key(es1[i]) == k);
        }
    }
    lemma_keys_distinct();
    reveal_strlit("method");
    reveal_strlit("path");
    reveal_strlit("name");
    reveal_strlit("depth");
    reveal_strlit("field_errors");
    assert(is_str_key("method"@) && is_str_key("path"@));
    assert(state_value(s1, "method"@) == state_value(s2, "method"@));
    assert(state_value(s1, "path"@) == state_value(s2, "path"@));
    assert(state_value(s1, "name"@) == state_value(s2, "name"@));
    assert(state_value(s1, "depth"@) == state_value(s2, "depth"@));
    assert(state_value(s1, "field_errors"@) == state_value(s2, "field_errors"@));
    assert(same_values(s1, s2));
    assert forall|j: int| n <= j < t1.len() implies t1[j] == t2[j] by {
        assert(t1[j] == rest[j - n]);
        assert(t2[j] == rest[j - n]);
    }
    lemma_scan_same_tail(t1, t2, n, s1, s2);
}

/// Each argument takes the value of its last entry, whatever other keys are
/// present: a list of well-formed entries is refused only when it has no
/// `method` or no `path`, and otherwise every argument holds the literal of
/// the last entry with its key, or is absent when there is none.
pub proof fn law_parse_takes_last_entry_per_key(es: Seq<Seq<AttrToken>>)
    requires
        all_entries(es),
    ensures
        key_value(es, "method"@) is None ==> spec_parse_args(flatten(es)) == Err::<
            EndpointArgs,
            ArgsError,
        >(ArgsError::MissingMethod),
        key_value(es, "method"@) is Some && key_value(es, "path"@) is None ==> spec_parse_args(
            flatten(es),
        ) == Err::<EndpointArgs, ArgsError>(ArgsError::MissingPath),
        key_value(es, "method"@) is Some && key_value(es, "path"@) is Some ==> (spec_parse_args(
            flatten(es),
        ) matches Ok(a) && Some(a.method.value@) == key_value(es, "method"@) && Some(
            a.path.value@,
        ) == key_value(es, "path"@) && lit_value(a.name) == key_value(es, "name"@) && lit_value(
            a.depth,
        ) == key_value(es, "depth"@) && lit_value(a.field_errors) == key_value(
            es,
            "field_errors"@,
        )),
{
    let e0 = Seq::<AttrToken>::empty();
    let t = flatten(es);
    lemma_scan_entries(e0, es, e0, empty_state());
    assert(e0 + flatten(es) + e0 =~= t);
    let st = record_all(empty_state(), es, 0);
    assert(scan_args(t, t.len() as int, st) == Ok::<ArgsState, ArgsError>(st));
    lemma_keys_distinct();
    reveal_strlit("method");
    reveal_strlit("path");
    reveal_strlit("name");
    reveal_strlit("depth");
    reveal_strlit("field_errors");
    assert(is_str_key("method"@) && is_str_key("path"@) && is_str_key("name"@) && is_str_key(
        "field_errors"@,
    ) && is_int_key("depth"@));
    lemma_record_all_values(empty_state(), es, 0, "method"@);
    lemma_record_all_values(empty_state(), es, 0, "path"@);
    lemma_record_all_values(empty_state(), es, 0, "name"@);
    lemma_record_all_values(empty_state(), es, 0, "depth"@);
    lemma_record_all_values(empty_state(), es, 0, "field_errors"@);
    assert(state_value(st, "method"@) == lit_value(st.method));
    assert(state_value(st, "path"@) == lit_value(st.path));
    assert(state_value(st, "name"@) == lit_value(st.name));
    assert(state_value(st, "depth"@) == lit_value(st.depth));
    assert(state_value(st, "field_errors"@) == lit_value(st.field_errors));
}

/// A later entry for a key replaces an earlier one: whatever the earlier
/// entry held, the arguments parse as if it held any other value.
pub proof fn law_parse_keeps_last_value(
    e1: Seq<AttrToken>,
    f: Seq<AttrToken>,
    e2: Seq<AttrToken>,
    rest: Seq<AttrToken>,
)
    requires
        is_entry(e1),
        is_entry(f),
        is_entry(e2),
        entry_key(e1) == entry_key(e2),
        entry_key(f) == entry_key(e2),
    ensures
        spec_parse_args(e1 + e2 + rest) == spec_parse_args(f + e2 + rest),
{
    let t1 = e1 + e2 + rest;
    let t2 = f + e2 + rest;
    let k = entry_key(e2);
    let b6 = LitArg { value: entry_literal(e2), at: 6 };
    lemma_scan_entry(t1, 0, e1, empty_state());
    lemma_scan_entry(
        t1,
        4,
        e2,
        record(empty_state(), k, LitArg { value: entry_literal(e1), at: 2 }),
    );
    lemma_scan_entry(t2, 0, f, empty_state());
    lemma_scan_entry(t2, 4, e2, record(empty_state(), k, LitArg { value: entry_literal(f), at: 2 }));
    let s = record(empty_state(), k, b6);
    assert(record(record(empty_state(), k, LitArg { value: entry_literal(e1), at: 2 }), k, b6) == s);
    assert(record(record(empty_state(), k, LitArg { value: entry_literal(f), at: 2 }), k, b6) == s);
    assert forall|j: int| 8 <= j < t1.len() implies t1[j] == t2[j] by {
        assert(t1[j] == rest[j - 8]);
        assert(t2[j] == rest[j - 8]);
    }
    lemma_scan_same_tail(t1, t2, 8, s, s);
}

// ---------------------------------------------------------------------------
// Implementation
// ---------------------------------------------------------------------------

/// Whether `s` is a Rust keyword.
fn is_keyword_exec(s: &String) -> (r: bool)
    ensures
        r == is_keyword(s@),
{
    string_is(s, "_")
        || string_is(s, "abstract")
        || string_is(s, "as")
        || string_is(s, "async")
        || string_is(s, "await")
        || string_is(s, "become")
        || string_is(s, "box")
        || string_is(s, "break")
        || string_is(s, "const")
        || string_is(s, "continue")
        || string_is(s, "crate")
        || string_is(s, "do")
        || string_is(s, "dyn")
        || string_is(s, "else")
        || string_is(s, "enum")
        || string_is(s, "extern")
        || string_is(s, "false")
        || string_is(s, "final")
        || string_is(s, "fn")
        || string_is(s, "for")
        || string_is(s, "if")
        || string_is(s, "impl")
        || string_is(s, "in")
        || string_is(s, "let")
        || string_is(s, "loop")
        || string_is(s, "macro")
        || string_is(s, "match")
        || string_is(s, "mod")
        || string_is(s, "move")
        || string_is(s, "mut")
        || string_is(s, "override")
        || string_is(s, "priv")
        || string_is(s, "pub")
        || string_is(s, "ref")
        || string_is(s, "return")
        || string_is(s, "Self")
        || string_is(s, "self")
        || string_is(s, "static")
        || string_is(s, "struct")
        || string_is(s, "super")
        || string_is(s, "trait")
        || string_is(s, "true")
        || string_is(s, "try")
        || string_is(s, "type")
        || string_is(s, "typeof")
        || string_is(s, "unsafe")
        || string_is(s, "unsized")
        || string_is(s, "use")
        || string_is(s, "virtual")
        || string_is(s, "where")
        || string_is(s, "while")
        || string_is(s, "yield")
}

/// Whether the token at `k` is the punctuation character `c`.
fn is_punct_at(toks: &Vec<AttrToken>, k: usize, c: char) -> (r: bool)
    ensures
        r == (k < toks.len() && is_punct(toks@[k as int], c)),
{
    if k >= toks.len() {
        return false;
    }
    match &toks[k] {
        AttrToken::Punct { ch, .. } => *ch == c,
        _ => false,
    }
}

/// Whether the keyword `s` begins an expression wherever it stands.
fn is_expr_keyword_exec(s: &String) -> (r: bool)
    ensures
        r == is_expr_keyword(s@),
{
    string_is(s, "_")
        || string_is(s, "become")
        || string_is(s, "break")
        || string_is(s, "const")
        || string_is(s, "continue")
        || string_is(s, "crate")
        || string_is(s, "false")
        || string_is(s, "for")
        || string_is(s, "if")
        || string_is(s, "let")
        || string_is(s, "loop")
        || string_is(s, "match")
        || string_is(s, "move")
        || string_is(s, "return")
        || string_is(s, "Self")
        || string_is(s, "self")
        || string_is(s, "static")
        || string_is(s, "super")
        || string_is(s, "true")
        || string_is(s, "unsafe")
        || string_is(s, "while")
        || string_is(s, "yield")
}

/// Whether the token at `k` is a group with delimiter `d`.
fn is_group_at(toks: &Vec<AttrToken>, k: usize, d: Delimiter) -> (r: bool)
    ensures
        r == is_group(toks@, k as int, d),
{
    if k >= toks.len() {
        return false;
    }
    match &toks[k] {
        AttrToken::Group(g) => match (g, d) {
            (Delimiter::Parenthesis, Delimiter::Parenthesis) => true,
            (Delimiter::Bracket, Delimiter::Bracket) => true,
            (Delimiter::Brace, Delimiter::Brace) => true,
            (Delimiter::Invisible, Delimiter::Invisible) => true,
            _ => false,
        },
        _ => false,
    }
}

/// Whether the token at `k` is the identifier `s`.
fn is_ident_at(toks: &Vec<AttrToken>, k: usize, s: &str) -> (r: bool)
    ensures
        r == is_ident(toks@, k as int, s@),
{
    if k >= toks.len() {
        return false;
    }
    match &toks[k] {
        AttrToken::Ident(i) => string_is(i, s),
        _ => false,
    }
}

/// Whether an expression can begin at the token at `k < toks.len()`.
fn starts_expr_at(toks: &Vec<AttrToken>, k: usize) -> (r: bool)
    requires
        k < toks.len(),
    ensures
        r == starts_expr(toks@, k as int),
{
    match &toks[k] {
        AttrToken::Punct { ch, .. } => {
            let c = *ch;
            c == '-' || c == '!' || c == '*' || c == '&' || c == '|' || c == '<' || c == '.' || c
                == '#' || c == ':' || c == '\''
        },
        AttrToken::Ident(s) => if !is_keyword_exec(s) {
            true
        } else if string_is(s, "async") {
            is_group_at(toks, k + 1, Delimiter::Brace) || is_ident_at(toks, k + 1, "move")
                || is_punct_at(toks, k + 1, '|')
        } else if string_is(s, "try") {
            is_group_at(toks, k + 1, Delimiter::Brace) || is_punct_at(toks, k + 1, '!')
                || is_punct_at(toks, k + 1, ':')
        } else {
            is_expr_keyword_exec(s)
        },
        _ => true,
    }
}

/// Whether the token at `k < toks.len()` is a single-token operand.
fn is_operand_at(toks: &Vec<AttrToken>, k: usize) -> (r: bool)
    requires
        k < toks.len(),
    ensures
        r == is_operand(toks@[k as int]),
{
    match &toks[k] {
        AttrToken::StrLit(_) => true,
        AttrToken::IntLit(_) => true,
        AttrToken::OtherLit => true,
        AttrToken::Ident(s) => !is_keyword_exec(s),
        _ => false,
    }
}

/// The character and spacing of the punctuation token at `k`, if it is one.
fn punct_at(toks: &Vec<AttrToken>, k: usize) -> (r: Option<(char, bool)>)
    requires
        k < toks.len(),
    ensures
        match r {
            Some((c, j)) => toks@[k as int] is Punct && c == punct_char(toks@[k as int]) && j
                == punct_joint(toks@[k as int]),
            None => !(toks@[k as int] is Punct),
        },
{
    match &toks[k] {
        AttrToken::Punct { ch, joint } => Some((*ch, *joint)),
        _ => None,
    }
}

/// Whether the tokens from `k` to the end are exactly one binary or assignment operator.
fn binop_then_end_at(toks: &Vec<AttrToken>, k: usize) -> (r: bool)
    ensures
        r == binop_then_end(toks@, k as int),
{
    let len = toks.len();
    if k >= len {
        return false;
    }
    let n = len - k;
    if n > 3 {
        return false;
    }
    let (c0, j0) = match punct_at(toks, k) {
        Some(p) => p,
        None => {
            return false;
        },
    };
    if n == 1 {
        return c0 == '+' || c0 == '-' || c0 == '*' || c0 == '/' || c0 == '%' || c0 == '^' || c0
            == '&' || c0 == '|' || c0 == '<' || c0 == '>' || c0 == '=';
    }
    let (c1, j1) = match punct_at(toks, k + 1) {
        Some(p) => p,
        None => {
            return false;
        },
    };
    if n == 2 {
        return j0 && ((c0 == '&' && c1 == '&') || (c0 == '|' && c1 == '|') || (c0 == '<' && c1
            == '<') || (c0 == '>' && c1 == '>') || (c1 == '=' && (c0 == '=' || c0 == '!' || c0
            == '<' || c0 == '>' || c0 == '+' || c0 == '-' || c0 == '*' || c0 == '/' || c0 == '%'
            || c0 == '^' || c0 == '&' || c0 == '|')));
    }
    let (c2, _j2) = match punct_at(toks, k + 2) {
        Some(p) => p,
        None => {
            return false;
        },
    };
    j0 && j1 && c0 == c1 && (c0 == '<' || c0 == '>') && c2 == '='
}

/// Whether the token at `k` continues an expression.
fn continues_expr_at(toks: &Vec<AttrToken>, k: usize) -> (r: bool)
    ensures
        r == continues_expr(toks@, k as int),
{
    if k >= toks.len() {
        return false;
    }
    match &toks[k] {
        AttrToken::Punct { ch, joint } => {
            let c = *ch;
            if c == '!' {
                *joint && k + 1 < toks.len() && is_punct_at(toks, k + 1, '=')
            } else if c == '=' {
                !(*joint && k + 1 < toks.len() && is_punct_at(toks, k + 1, '>'))
            } else {
                c == '+' || c == '-' || c == '*' || c == '/' || c == '%' || c == '^' || c == '&'
                    || c == '|' || c == '<' || c == '>' || c == '.' || c == '?'
            }
        },
        AttrToken::Ident(s) => string_is(s, "as"),
        AttrToken::Group(d) => match d {
            Delimiter::Parenthesis => true,
            Delimiter::Bracket => true,
            _ => false,
        },
        _ => false,
    }
}

/// The string literal value whose expression starts at `at`, for `key`.
pub fn parse_str_lit(toks: &Vec<AttrToken>, at: usize, key: &String) -> (r: Result<
    LitArg,
    ArgsError,
>)
    ensures
        r == str_value(toks@, at as int, *key),
{
    if at >= toks.len() {
        return Err(ArgsError::ExpectedValue { at, end: true });
    }
    if !starts_expr_at(toks, at) {
        return Err(ArgsError::ExpectedValue { at, end: false });
    }
    if is_operand_at(toks, at) && binop_then_end_at(toks, at + 1) {
        return Err(ArgsError::ExpectedValue { at: toks.len(), end: true });
    }
    match &toks[at] {
        AttrToken::StrLit(s) => if !continues_expr_at(toks, at + 1) {
            Ok(LitArg { value: s.clone(), at })
        } else {
            Err(ArgsError::NotStrLit { at, key: key.clone() })
        },
        _ => Err(ArgsError::NotStrLit { at, key: key.clone() }),
    }
}

/// The integer literal digits whose expression starts at `at`, for `key`.
pub fn parse_int_lit(toks: &Vec<AttrToken>, at: usize, key: &String) -> (r: Result<
    LitArg,
    ArgsError,
>)
    ensures
        r == int_value(toks@, at as int, *key),
{
    if at >= toks.len() {
        return Err(ArgsError::ExpectedValue { at, end: true });
    }
    if !starts_expr_at(toks, at) {
        return Err(ArgsError::ExpectedValue { at, end: false });
    }
    if is_operand_at(toks, at) && binop_then_end_at(toks, at + 1) {
        return Err(ArgsError::ExpectedValue { at: toks.len(), end: true });
    }
    match &toks[at] {
        AttrToken::IntLit(s) => if !continues_expr_at(toks, at + 1) {
            Ok(LitArg { value: s.clone(), at })
        } else {
            Err(ArgsError::NotIntLit { at, key: key.clone() })
        },
        _ => Err(ArgsError::NotIntLit { at, key: key.clone() }),
    }
}

impl EndpointArgs {
    /// Parses the attribute's tokens.
    pub fn parse(toks: &Vec<AttrToken>) -> (r: Result<EndpointArgs, ArgsError>)
        ensures
            r == spec_parse_args(toks@),
    {
        let mut method: Option<LitArg> = None;
        let mut path: Option<LitArg> = None;
        let mut name: Option<LitArg> = None;
        let mut depth: Option<LitArg> = None;
        let mut field_errors: Option<LitArg> = None;
        let n = toks.len();
        let mut i: usize = 0;

        while i < n
            invariant
                n == toks.len(),
                scan_args(toks@, 0, empty_state()) == scan_args(
                    toks@,
                    i as int,
                    ArgsState { method, path, name, depth, field_errors },
                ),
            decreases n - i,
        {
            let ghost st = ArgsState { method, path, name, depth, field_errors };
            let key = match &toks[i] {
                AttrToken::Ident(k) => k,
                _ => {
                    return Err(ArgsError::ExpectedIdent { at: i });
                },
            };
            if is_keyword_exec(key) {
                return Err(ArgsError::KeywordKey { at: i, key: key.clone() });
            }
            if i + 1 >= n {
                return Err(ArgsError::ExpectedEq { at: i + 1, end: true });
            }
            if !is_punct_at(toks, i + 1, '=') {
                return Err(ArgsError::ExpectedEq { at: i + 1, end: false });
            }
            let is_method = string_is(key, "method");
            let is_path = string_is(key, "path");
            let is_name = string_is(key, "name");
            let is_depth = string_is(key, "depth");
            let is_field_errors = string_is(key, "field_errors");
            if !(is_method || is_path || is_name || is_depth || is_field_errors) {
                return Err(ArgsError::UnknownKey { at: i, key: key.clone() });
            }
            proof {
                lemma_keys_distinct();
            }
            let value = if is_depth {
                parse_int_lit(toks, i + 2, key)
            } else {
                parse_str_lit(toks, i + 2, key)
            };
            let v = match value {
                Ok(v) => v,
                Err(e) => {
                    return Err(e);
                },
            };
            if is_method {
                method = Some(v);
            } else if is_path {
                path = Some(v);
            } else if is_name {
                name = Some(v);
            } else if is_depth {
                depth = Some(v);
            } else {
                field_errors = Some(v);
            }
            assert(ArgsState { method, path, name, depth, field_errors } == record(st, key@, v));
            if is_punct_at(toks, i + 3, ',') {
                i = i + 4;
            } else {
                i = i + 3;
            }
        }

        let method = match method {
            Some(m) => m,
            None => {
                return Err(ArgsError::MissingMethod);
            },
        };
        let path = match path {
            Some(p) => p,
            None => {
                return Err(ArgsError::MissingPath);
            },
        };
        Ok(EndpointArgs { method, path, name, depth, field_errors })
    }
}

impl ArgsError {
    /// The text of the diagnostic for this error.
    pub fn message(&self) -> (m: String)
        ensures
            m@ == spec_args_message(*self),
    {
        let mut m = String::new();
        match self {
            ArgsError::ExpectedIdent { .. } => push_str(&mut m, "expected identifier"),
            ArgsError::KeywordKey { key, .. } => {
                push_str(&mut m, "expected identifier, found keyword `");
                push_str(&mut m, key.as_str());
                push_str(&mut m, "`");
            },
            ArgsError::ExpectedEq { end, .. } => {
                if *end {
                    push_str(&mut m, "unexpected end of input, ");
                }
                push_str(&mut m, "expected `=`");
            },
            ArgsError::UnknownKey { key, .. } => {
                push_str(&mut m, "unknown api_endpoint argument `");
                push_str(&mut m, key.as_str());
                push_str(&mut m, "`; expected `method`, `path`, `name`, `depth`, or `field_errors`");
            },
            ArgsError::ExpectedValue { end, .. } => {
                if *end {
                    push_str(&mut m, "unexpected end of input, ");
                }
                push_str(&mut m, "expected an expression");
            },
            ArgsError::NotStrLit { key, .. } => {
                push_str(&mut m, "value of `");
                push_str(&mut m, key.as_str());
                push_str(&mut m, "` must be a string literal");
            },
            ArgsError::NotIntLit { key, .. } => {
                push_str(&mut m, "value of `");
                push_str(&mut m, key.as_str());
                push_str(&mut m, "` must be an integer literal");
            },
            ArgsError::MissingMethod => push_str(&mut m, "api_endpoint requires `method = \"...\"`"),
            ArgsError::MissingPath => push_str(&mut m, "api_endpoint requires `path = \"...\"`"),
        }
        m
    }
}

} // verus!
