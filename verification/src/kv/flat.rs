//! SQL of the Postgres store with one `(namespace, key)` row per value,
//! listed by key prefix.

use vstd::prelude::*;
use crate::kv::shared::{quoted, quoted_identifier};
use crate::text::push_str;
use crate::text::{chars_of, push_char};

verus! {

/// The text of [`create_table_statement`].
pub open spec fn flat_create_table_statement_text(table: Seq<char>) -> Seq<char> {
    "CREATE TABLE IF NOT EXISTS "@ + quoted(table) + " (\n                namespace VARCHAR(255) NOT NULL,\n                key VARCHAR(255) NOT NULL,\n                value BYTEA NOT NULL,\n                PRIMARY KEY (namespace, key)\n            )"@
}

/// The statement that creates the store table.
pub fn create_table_statement(table: &str) -> (s: String)
    ensures
        s@ == flat_create_table_statement_text(table@),
{
    let mut s = String::new();
    push_str(&mut s, "CREATE TABLE IF NOT EXISTS ");
    let q = quoted_identifier(table);
    push_str(&mut s, q.as_str());
    push_str(&mut s, " (\n                namespace VARCHAR(255) NOT NULL,\n                key VARCHAR(255) NOT NULL,\n                value BYTEA NOT NULL,\n                PRIMARY KEY (namespace, key)\n            )");
    assert(s@ =~= flat_create_table_statement_text(table@));
    s
}

/// The text of [`get_query`].
pub open spec fn flat_get_query_text(table: Seq<char>) -> Seq<char> {
    "SELECT value FROM "@ + quoted(table) + " WHERE namespace = $1 AND key = $2"@
}

/// The query that reads one value.
pub fn get_query(table: &str) -> (s: String)
    ensures
        s@ == flat_get_query_text(table@),
{
    let mut s = String::new();
    push_str(&mut s, "SELECT value FROM ");
    let q = quoted_identifier(table);
    push_str(&mut s, q.as_str());
    push_str(&mut s, " WHERE namespace = $1 AND key = $2");
    assert(s@ =~= flat_get_query_text(table@));
    s
}

/// The text of [`set_query`].
pub open spec fn flat_set_query_text(table: Seq<char>) -> Seq<char> {
    "INSERT INTO "@ + quoted(table) + " (namespace, key, value) VALUES ($1, $2, $3) \n             ON CONFLICT (namespace, key) DO UPDATE SET value = $3"@
}

/// The statement that writes one value.
pub fn set_query(table: &str) -> (s: String)
    ensures
        s@ == flat_set_query_text(table@),
{
    let mut s = String::new();
    push_str(&mut s, "INSERT INTO ");
    let q = quoted_identifier(table);
    push_str(&mut s, q.as_str());
    push_str(&mut s, " (namespace, key, value) VALUES ($1, $2, $3) \n             ON CONFLICT (namespace, key) DO UPDATE SET value = $3");
    assert(s@ =~= flat_set_query_text(table@));
    s
}

/// The text of [`compare_and_swap_query`].
pub open spec fn flat_compare_and_swap_text(table: Seq<char>, expected: bool) -> Seq<char> {
    if expected {
        "UPDATE "@ + quoted(table) + " SET value = $3\n                 WHERE namespace = $1 AND key = $2 AND value = $4"@
    } else {
        "INSERT INTO "@ + quoted(table) + " (namespace, key, value) VALUES ($1, $2, $3)\n                 ON CONFLICT (namespace, key) DO NOTHING"@
    }
}

/// The statement that writes a value only over the expected one, or only where none exists.
pub fn compare_and_swap_query(table: &str, expected: bool) -> (s: String)
    ensures
        s@ == flat_compare_and_swap_text(table@, expected),
{
    let q = quoted_identifier(table);
    let mut s = String::new();
    if expected {
        push_str(&mut s, "UPDATE ");
        push_str(&mut s, q.as_str());
        push_str(&mut s, " SET value = $3\n                 WHERE namespace = $1 AND key = $2 AND value = $4");
    } else {
        push_str(&mut s, "INSERT INTO ");
        push_str(&mut s, q.as_str());
        push_str(&mut s, " (namespace, key, value) VALUES ($1, $2, $3)\n                 ON CONFLICT (namespace, key) DO NOTHING");
    }
    assert(s@ =~= flat_compare_and_swap_text(table@, expected));
    s
}

/// The text of [`delete_query`].
pub open spec fn flat_delete_query_text(table: Seq<char>) -> Seq<char> {
    "DELETE FROM "@ + quoted(table) + " WHERE namespace = $1 AND key = $2"@
}

/// The statement that deletes one key.
pub fn delete_query(table: &str) -> (s: String)
    ensures
        s@ == flat_delete_query_text(table@),
{
    let mut s = String::new();
    push_str(&mut s, "DELETE FROM ");
    let q = quoted_identifier(table);
    push_str(&mut s, q.as_str());
    push_str(&mut s, " WHERE namespace = $1 AND key = $2");
    assert(s@ =~= flat_delete_query_text(table@));
    s
}

/// The text of [`list_keys_query`].
pub open spec fn flat_list_keys_query_text(table: Seq<char>) -> Seq<char> {
    "SELECT key FROM "@ + quoted(table) + " WHERE namespace = $1 AND key LIKE $2 ESCAPE '\\'"@
}

/// The query that lists the keys under a prefix.
pub fn list_keys_query(table: &str) -> (s: String)
    ensures
        s@ == flat_list_keys_query_text(table@),
{
    let mut s = String::new();
    push_str(&mut s, "SELECT key FROM ");
    let q = quoted_identifier(table);
    push_str(&mut s, q.as_str());
    push_str(&mut s, " WHERE namespace = $1 AND key LIKE $2 ESCAPE '\\'");
    assert(s@ =~= flat_list_keys_query_text(table@));
    s
}

/// The text of [`list_entries_query`].
pub open spec fn flat_list_entries_query_text(table: Seq<char>) -> Seq<char> {
    "SELECT key, value FROM "@ + quoted(table) + " WHERE namespace = $1 AND key LIKE $2 ESCAPE '\\'"@
}

/// The query that lists the keys and values under a prefix.
pub fn list_entries_query(table: &str) -> (s: String)
    ensures
        s@ == flat_list_entries_query_text(table@),
{
    let mut s = String::new();
    push_str(&mut s, "SELECT key, value FROM ");
    let q = quoted_identifier(table);
    push_str(&mut s, q.as_str());
    push_str(&mut s, " WHERE namespace = $1 AND key LIKE $2 ESCAPE '\\'");
    assert(s@ =~= flat_list_entries_query_text(table@));
    s
}

/// The text of [`delete_prefix_query`].
pub open spec fn flat_delete_prefix_query_text(table: Seq<char>) -> Seq<char> {
    "DELETE FROM "@ + quoted(table) + " WHERE namespace = $1 AND key LIKE $2 ESCAPE '\\'"@
}

/// The statement that deletes every key under a prefix.
pub fn delete_prefix_query(table: &str) -> (s: String)
    ensures
        s@ == flat_delete_prefix_query_text(table@),
{
    let mut s = String::new();
    push_str(&mut s, "DELETE FROM ");
    let q = quoted_identifier(table);
    push_str(&mut s, q.as_str());
    push_str(&mut s, " WHERE namespace = $1 AND key LIKE $2 ESCAPE '\\'");
    assert(s@ =~= flat_delete_prefix_query_text(table@));
    s
}

/// `prefix` with the `LIKE` metacharacters `\`, `%` and `_` escaped by `\`.
pub open spec fn like_escaped(prefix: Seq<char>) -> Seq<char>
    decreases prefix.len(),
{
    if prefix.len() == 0 {
        seq![]
    } else {
        let c = prefix.last();
        like_escaped(prefix.drop_last()) + if c == '\\' || c == '%' || c == '_' {
            seq!['\\', c]
        } else {
            seq![c]
        }
    }
}

/// The `LIKE` pattern that matches every key starting with `prefix`.
pub open spec fn like_prefix_text(prefix: Seq<char>) -> Seq<char> {
    like_escaped(prefix) + seq!['%']
}

/// The `LIKE` pattern that matches every key starting with `prefix`.
pub fn like_prefix_pattern(prefix: &str) -> (s: String)
    ensures
        s@ == like_prefix_text(prefix@),
{
    let v = chars_of(prefix);
    let mut escaped = String::new();
    let mut i: usize = 0;
    while i < v.len()
        invariant
            i <= v.len(),
            escaped@ == like_escaped(v@.take(i as int)),
        decreases v.len() - i,
    {
        let ch = v[i];
        if ch == '\\' || ch == '%' || ch == '_' {
            push_char(&mut escaped, '\\');
            push_char(&mut escaped, ch);
        } else {
            push_char(&mut escaped, ch);
        }
        proof {
            let t = v@.take(i + 1);
            assert(t.drop_last() =~= v@.take(i as int));
            assert(t.last() == ch);
        }
        i += 1;
        assert(escaped@ =~= like_escaped(v@.take(i as int)));
    }
    assert(v@.take(v@.len() as int) =~= v@);
    push_char(&mut escaped, '%');
    escaped
}

} // verus!
