//! Identifier checks shared by the SQL-backed stores.

use vstd::prelude::*;
use crate::text::{
    ascii_alphabetic, ascii_alphanumeric, ascii_lower, chars_of, is_ascii_alphabetic,
    is_ascii_alphanumeric, owned, push_char, push_str, str_eq, string_of, to_ascii_lower,
};
use vstd::utf8::encode_utf8;
use crate::json::opt_view;
use crate::keys::ResourceList;
use crate::kv::rocksdb::PageNeedsKind;

verus! {

/// The SQL keywords that may not name a table.
pub open spec fn reserved_identifiers() -> Seq<Seq<char>> {
    seq![
        "all"@,
        "analyse"@,
        "analyze"@,
        "and"@,
        "any"@,
        "array"@,
        "as"@,
        "asc"@,
        "asymmetric"@,
        "authorization"@,
        "between"@,
        "binary"@,
        "both"@,
        "case"@,
        "cast"@,
        "check"@,
        "collate"@,
        "column"@,
        "constraint"@,
        "create"@,
        "current_catalog"@,
        "current_date"@,
        "current_role"@,
        "current_schema"@,
        "current_time"@,
        "current_timestamp"@,
        "current_user"@,
        "default"@,
        "deferrable"@,
        "desc"@,
        "distinct"@,
        "do"@,
        "else"@,
        "end"@,
        "except"@,
        "false"@,
        "fetch"@,
        "for"@,
        "foreign"@,
        "from"@,
        "grant"@,
        "group"@,
        "having"@,
        "in"@,
        "initially"@,
        "intersect"@,
        "into"@,
        "is"@,
        "leading"@,
        "limit"@,
        "localtime"@,
        "localtimestamp"@,
        "not"@,
        "null"@,
        "offset"@,
        "on"@,
        "only"@,
        "or"@,
        "order"@,
        "placing"@,
        "primary"@,
        "references"@,
        "returning"@,
        "select"@,
        "session_user"@,
        "some"@,
        "symmetric"@,
        "table"@,
        "then"@,
        "to"@,
        "trailing"@,
        "true"@,
        "union"@,
        "unique"@,
        "user"@,
        "using"@,
        "variadic"@,
        "when"@,
        "where"@,
        "window"@,
        "with"@
    ]
}

/// Why a table name was refused.
#[derive(Clone, Copy, Debug, PartialEq, Eq, Structural)]
pub enum IdentifierProblem {
    /// Empty, or longer than 63 bytes.
    Length,
    /// Does not start with an ASCII letter or `_`.
    FirstChar,
    /// Holds something other than ASCII letters, digits and `_`.
    Chars,
    /// Is (case-insensitively) a reserved SQL keyword.
    Reserved,
}

/// A refused table name.
#[derive(Clone, Debug, PartialEq, Eq)]
pub struct InvalidIdentifier {
    pub table: String,
    pub problem: IdentifierProblem,
}

/// ASCII lower-casing of a string.
pub open spec fn ascii_lower_text(s: Seq<char>) -> Seq<char> {
    s.map_values(|c: char| ascii_lower(c))
}

/// The problem with `table` as a table name, if any.
pub open spec fn identifier_problem(table: Seq<char>) -> Option<IdentifierProblem> {
    if table.len() == 0 || encode_utf8(table).len() > 63 {
        Some(IdentifierProblem::Length)
    } else if !(is_ascii_alphabetic(table[0]) || table[0] == '_') {
        Some(IdentifierProblem::FirstChar)
    } else if exists|i: int| 1 <= i < table.len() && !(is_ascii_alphanumeric(table[i]) || table[i] == '_') {
        Some(IdentifierProblem::Chars)
    } else if reserved_identifiers().contains(ascii_lower_text(table)) {
        Some(IdentifierProblem::Reserved)
    } else {
        None
    }
}

/// Why a table name is refused, in words.
pub open spec fn identifier_problem_text(p: IdentifierProblem) -> Seq<char> {
    match p {
        IdentifierProblem::Length => "must be between 1 and 63 characters"@,
        IdentifierProblem::FirstChar => "must start with a letter or underscore"@,
        IdentifierProblem::Chars => "only ASCII letters, numbers, and underscores are allowed"@,
        IdentifierProblem::Reserved => "SQL reserved keywords are not allowed"@,
    }
}

/// The description of a refused table name.
pub open spec fn invalid_identifier_text(e: InvalidIdentifier) -> Seq<char> {
    "Invalid table name '"@ + e.table@ + "': "@ + identifier_problem_text(e.problem)
}

impl InvalidIdentifier {
    /// A description of the refusal.
    pub fn message(&self) -> (r: String)
        ensures
            r@ == invalid_identifier_text(*self),
    {
        let mut s = owned("Invalid table name '");
        push_str(&mut s, self.table.as_str());
        push_str(&mut s, "': ");
        let reason = match self.problem {
            IdentifierProblem::Length => "must be between 1 and 63 characters",
            IdentifierProblem::FirstChar => "must start with a letter or underscore",
            IdentifierProblem::Chars => "only ASCII letters, numbers, and underscores are allowed",
            IdentifierProblem::Reserved => "SQL reserved keywords are not allowed",
        };
        push_str(&mut s, reason);
        s
    }
}

fn is_reserved(word: &str) -> (r: bool)
    ensures
        r == reserved_identifiers().contains(word@),
{
    let words: [&str; 81] = ["all", "analyse", "analyze", "and", "any", "array", "as", "asc", "asymmetric", "authorization", "between", "binary", "both", "case", "cast", "check", "collate", "column", "constraint", "create", "current_catalog", "current_date", "current_role", "current_schema", "current_time", "current_timestamp", "current_user", "default", "deferrable", "desc", "distinct", "do", "else", "end", "except", "false", "fetch", "for", "foreign", "from", "grant", "group", "having", "in", "initially", "intersect", "into", "is", "leading", "limit", "localtime", "localtimestamp", "not", "null", "offset", "on", "only", "or", "order", "placing", "primary", "references", "returning", "select", "session_user", "some", "symmetric", "table", "then", "to", "trailing", "true", "union", "unique", "user", "using", "variadic", "when", "where", "window", "with"];
    let ghost list = reserved_identifiers();
    assert(words@.map_values(|w: &str| w@) =~= list);
    let mut i: usize = 0;
    while i < words.len()
        invariant
            i <= words@.len(),
            words@.map_values(|w: &str| w@) == list,
            list == reserved_identifiers(),
            forall|j: int| 0 <= j < i ==> list[j] != word@,
        decreases words.len() - i,
    {
        assert(list[i as int] == words@[i as int]@);
        if str_eq(words[i], word) {
            assert(0 <= i < list.len());
            assert(list[i as int] == word@);
            assert(list.contains(word@));
            return true;
        }
        i += 1;
    }
    assert(!list.contains(word@));
    false
}

/// Checks that `table` can name a table: 1 to 63 bytes of ASCII letters,
/// digits and `_`, not starting with a digit, and no reserved keyword.
pub fn validate_identifier(table: &str) -> (r: Result<(), InvalidIdentifier>)
    ensures
        match identifier_problem(table@) {
            None => r is Ok,
            Some(problem) => r matches Err(e) && e.table@ == table@ && e.problem == problem,
        },
{
    let v = chars_of(table);
    if v.len() == 0 || table.as_bytes().len() > 63 {
        return Err(InvalidIdentifier { table: owned(table), problem: IdentifierProblem::Length });
    }
    assert(table@.len() > 0 && encode_utf8(table@).len() <= 63);
    let first = v[0];
    assert(first == table@[0]);
    if !ascii_alphabetic(first) && first != '_' {
        return Err(InvalidIdentifier { table: owned(table), problem: IdentifierProblem::FirstChar });
    }
    let mut i: usize = 1;
    while i < v.len()
        invariant
            v@ == table@,
            1 <= i <= v.len(),
            table@.len() > 0 && encode_utf8(table@).len() <= 63,
            is_ascii_alphabetic(table@[0]) || table@[0] == '_',
            forall|j: int| 1 <= j < i ==> (is_ascii_alphanumeric(v@[j]) || v@[j] == '_'),
        decreases v.len() - i,
    {
        if !ascii_alphanumeric(v[i]) && v[i] != '_' {
            assert(!(is_ascii_alphanumeric(table@[i as int]) || table@[i as int] == '_'));
            return Err(InvalidIdentifier { table: owned(table), problem: IdentifierProblem::Chars });
        }
        i += 1;
    }
    let mut lower: Vec<char> = Vec::new();
    let mut k: usize = 0;
    while k < v.len()
        invariant
            k <= v.len(),
            lower@ == ascii_lower_text(v@.take(k as int)),
        decreases v.len() - k,
    {
        lower.push(to_ascii_lower(v[k]));
        k += 1;
        assert(lower@ =~= ascii_lower_text(v@.take(k as int)));
    }
    assert(v@.take(v@.len() as int) =~= v@);
    let lowered = string_of(&lower);
    assert(!(exists|i: int| 1 <= i < table@.len() && !(is_ascii_alphanumeric(table@[i]) || table@[i] == '_')));
    assert(lowered@ == ascii_lower_text(table@));
    if is_reserved(lowered.as_str()) {
        return Err(InvalidIdentifier { table: owned(table), problem: IdentifierProblem::Reserved });
    }
    Ok(())
}

/// `"table"`.
pub open spec fn quoted(table: Seq<char>) -> Seq<char> {
    seq!['"'] + table + seq!['"']
}

/// The table name in double quotes.
pub fn quoted_identifier(table: &str) -> (s: String)
    ensures
        s@ == quoted(table@),
{
    let mut s = String::new();
    push_char(&mut s, '"');
    push_str(&mut s, table);
    push_char(&mut s, '"');
    assert(s@ =~= quoted(table@));
    s
}

/// The SQLite connection URL of a database file: `sqlite://` and the path.
pub fn sqlite_url_for_path(path: &str) -> (s: String)
    ensures
        s@ == "sqlite://"@ + path@,
{
    let mut s = owned("sqlite://");
    push_str(&mut s, path);
    s
}

/// What the page queries of the SQL stores bind: the parent, the kind, the
/// name cursor (or null) and the page size.
#[derive(Clone, Debug)]
pub struct PageBinds {
    pub namespace: String,
    pub parent_path: String,
    pub kind: String,
    pub before_name: Option<String>,
    pub limit: i64,
}

/// The plain value of a text that may be missing.
pub open spec fn opt_text(s: Option<&str>) -> Option<Seq<char>> {
    match s {
        Some(t) => Some(t@),
        None => None,
    }
}

/// A page of a SQL store's listing: no query at all for a page of zero
/// entries (the page is empty), refused without a resource kind, else the
/// binds of the page query; the page size is bound as `limit as i64`.
pub fn page_binds(list: &ResourceList, before_name: Option<&str>, limit: usize) -> (r: Result<
    Option<PageBinds>,
    PageNeedsKind,
>)
    ensures
        limit == 0 ==> r matches Ok(None),
        limit != 0 && list.kind is None ==> r is Err,
        limit != 0 ==> (list.kind matches Some(k) ==> r matches Ok(Some(b)) && b.namespace@
            == list.parent.namespace@ && b.parent_path@ == list.parent.parent_path@ && b.kind@ == k@
            && opt_view(b.before_name) == opt_text(before_name) && b.limit == limit as i64),
{
    if limit == 0 {
        return Ok(None);
    }
    let kind = match &list.kind {
        Some(k) => k,
        None => {
            return Err(PageNeedsKind);
        },
    };
    Ok(
        Some(
            PageBinds {
                namespace: owned(list.parent.namespace.as_str()),
                parent_path: owned(list.parent.parent_path.as_str()),
                kind: owned(kind.as_str()),
                before_name: match before_name {
                    Some(b) => Some(owned(b)),
                    None => None,
                },
                limit: #[verifier::truncate] (limit as i64),
            },
        ),
    )
}

} // verus!
