//! SQL of the SQLite store: one row per resource key, keyed by
//! namespace, parent path, kind and name.

use vstd::prelude::*;
use crate::kv::shared::{quoted, quoted_identifier};
use crate::text::{owned, push_str};

verus! {

/// The text of [`create_table_statement`].
pub open spec fn sqlite_create_table_text(table: Seq<char>) -> Seq<char> {
    "CREATE TABLE IF NOT EXISTS "@ + quoted(table) + " (\n                namespace TEXT NOT NULL,\n                parent_path TEXT NOT NULL,\n                kind TEXT NOT NULL,\n                name TEXT NOT NULL,\n                value BLOB NOT NULL,\n                PRIMARY KEY (namespace, parent_path, kind, name)\n            ) WITHOUT ROWID"@
}

/// The statement that creates the store table.
pub fn create_table_statement(table: &str) -> (s: String)
    ensures
        s@ == sqlite_create_table_text(table@),
{
    let mut s = String::new();
    push_str(&mut s, "CREATE TABLE IF NOT EXISTS ");
    let q = quoted_identifier(table);
    push_str(&mut s, q.as_str());
    push_str(&mut s, " (\n                namespace TEXT NOT NULL,\n                parent_path TEXT NOT NULL,\n                kind TEXT NOT NULL,\n                name TEXT NOT NULL,\n                value BLOB NOT NULL,\n                PRIMARY KEY (namespace, parent_path, kind, name)\n            ) WITHOUT ROWID");
    assert(s@ =~= sqlite_create_table_text(table@));
    s
}

/// The text of [`get_query`].
pub open spec fn sqlite_get_text(table: Seq<char>) -> Seq<char> {
    "SELECT value FROM "@ + quoted(table) + "\n         WHERE namespace = ?1 AND parent_path = ?2 AND kind = ?3 AND name = ?4"@
}

/// The query that reads one value.
pub fn get_query(table: &str) -> (s: String)
    ensures
        s@ == sqlite_get_text(table@),
{
    let mut s = String::new();
    push_str(&mut s, "SELECT value FROM ");
    let q = quoted_identifier(table);
    push_str(&mut s, q.as_str());
    push_str(&mut s, "\n         WHERE namespace = ?1 AND parent_path = ?2 AND kind = ?3 AND name = ?4");
    assert(s@ =~= sqlite_get_text(table@));
    s
}

/// The text of [`set_query`].
pub open spec fn sqlite_set_text(table: Seq<char>) -> Seq<char> {
    "INSERT INTO "@ + quoted(table) + " (namespace, parent_path, kind, name, value)\n             VALUES (?1, ?2, ?3, ?4, ?5)\n             ON CONFLICT (namespace, parent_path, kind, name)\n             DO UPDATE SET value = excluded.value"@
}

/// The statement that writes one value.
pub fn set_query(table: &str) -> (s: String)
    ensures
        s@ == sqlite_set_text(table@),
{
    let mut s = String::new();
    push_str(&mut s, "INSERT INTO ");
    let q = quoted_identifier(table);
    push_str(&mut s, q.as_str());
    push_str(&mut s, " (namespace, parent_path, kind, name, value)\n             VALUES (?1, ?2, ?3, ?4, ?5)\n             ON CONFLICT (namespace, parent_path, kind, name)\n             DO UPDATE SET value = excluded.value");
    assert(s@ =~= sqlite_set_text(table@));
    s
}

/// The text of [`compare_and_swap_query`].
pub open spec fn sqlite_compare_and_swap_text(table: Seq<char>, expected: bool) -> Seq<char> {
    if expected {
        "UPDATE "@ + quoted(table) + " SET value = ?5\n             WHERE namespace = ?1 AND parent_path = ?2 AND kind = ?3 AND name = ?4 AND value = ?6"@
    } else {
        "INSERT INTO "@ + quoted(table) + " (namespace, parent_path, kind, name, value)\n             VALUES (?1, ?2, ?3, ?4, ?5)\n             ON CONFLICT (namespace, parent_path, kind, name) DO NOTHING"@
    }
}

/// The statement that writes a value only over the expected one, or only where none exists.
pub fn compare_and_swap_query(table: &str, expected: bool) -> (s: String)
    ensures
        s@ == sqlite_compare_and_swap_text(table@, expected),
{
    let q = quoted_identifier(table);
    let mut s = String::new();
    if expected {
        push_str(&mut s, "UPDATE ");
        push_str(&mut s, q.as_str());
        push_str(&mut s, " SET value = ?5\n             WHERE namespace = ?1 AND parent_path = ?2 AND kind = ?3 AND name = ?4 AND value = ?6");
    } else {
        push_str(&mut s, "INSERT INTO ");
        push_str(&mut s, q.as_str());
        push_str(&mut s, " (namespace, parent_path, kind, name, value)\n             VALUES (?1, ?2, ?3, ?4, ?5)\n             ON CONFLICT (namespace, parent_path, kind, name) DO NOTHING");
    }
    assert(s@ =~= sqlite_compare_and_swap_text(table@, expected));
    s
}

/// The text of [`delete_query`].
pub open spec fn sqlite_delete_text(table: Seq<char>) -> Seq<char> {
    "DELETE FROM "@ + quoted(table) + "\n         WHERE namespace = ?1 AND parent_path = ?2 AND kind = ?3 AND name = ?4"@
}

/// The statement that deletes one key.
pub fn delete_query(table: &str) -> (s: String)
    ensures
        s@ == sqlite_delete_text(table@),
{
    let mut s = String::new();
    push_str(&mut s, "DELETE FROM ");
    let q = quoted_identifier(table);
    push_str(&mut s, q.as_str());
    push_str(&mut s, "\n         WHERE namespace = ?1 AND parent_path = ?2 AND kind = ?3 AND name = ?4");
    assert(s@ =~= sqlite_delete_text(table@));
    s
}

/// The text of [`list_keys_query`].
pub open spec fn sqlite_list_keys_query_text(table: Seq<char>, has_kind: bool) -> Seq<char> {
    "SELECT namespace, parent_path, kind, name FROM "@ + quoted(table) + "\n         WHERE namespace = ?1 AND parent_path = ?2 "@ + (if has_kind {
        "AND kind = ?3"@
    } else {
        ""@
    }) + "\n         ORDER BY kind ASC, name ASC"@
}

/// The query that lists the keys of direct children.
pub fn list_keys_query(table: &str, has_kind: bool) -> (s: String)
    ensures
        s@ == sqlite_list_keys_query_text(table@, has_kind),
{
    let kind_clause = if has_kind {
        "AND kind = ?3"
    } else {
        ""
    };
    let q = quoted_identifier(table);
    let mut s = owned("SELECT namespace, parent_path, kind, name FROM ");
    push_str(&mut s, q.as_str());
    push_str(&mut s, "\n         WHERE namespace = ?1 AND parent_path = ?2 ");
    push_str(&mut s, kind_clause);
    push_str(&mut s, "\n         ORDER BY kind ASC, name ASC");
    assert(s@ =~= sqlite_list_keys_query_text(table@, has_kind));
    s
}

/// The text of [`list_entries_query`].
pub open spec fn sqlite_list_entries_query_text(table: Seq<char>, has_kind: bool) -> Seq<char> {
    "SELECT namespace, parent_path, kind, name, value FROM "@ + quoted(table) + "\n         WHERE namespace = ?1 AND parent_path = ?2 "@ + (if has_kind {
        "AND kind = ?3"@
    } else {
        ""@
    }) + "\n         ORDER BY kind ASC, name ASC"@
}

/// The query that lists the keys and values of direct children.
pub fn list_entries_query(table: &str, has_kind: bool) -> (s: String)
    ensures
        s@ == sqlite_list_entries_query_text(table@, has_kind),
{
    let kind_clause = if has_kind {
        "AND kind = ?3"
    } else {
        ""
    };
    let q = quoted_identifier(table);
    let mut s = owned("SELECT namespace, parent_path, kind, name, value FROM ");
    push_str(&mut s, q.as_str());
    push_str(&mut s, "\n         WHERE namespace = ?1 AND parent_path = ?2 ");
    push_str(&mut s, kind_clause);
    push_str(&mut s, "\n         ORDER BY kind ASC, name ASC");
    assert(s@ =~= sqlite_list_entries_query_text(table@, has_kind));
    s
}

/// The text of [`list_keys_page_query`].
pub open spec fn sqlite_list_keys_page_text(table: Seq<char>) -> Seq<char> {
    "SELECT namespace, parent_path, kind, name FROM "@ + quoted(table) + "\n         WHERE namespace = ?1 AND parent_path = ?2 AND kind = ?3\n           AND (?4 IS NULL OR name < ?4)\n         ORDER BY name DESC\n         LIMIT ?5"@
}

/// The query that reads one page of child keys, last name first.
pub fn list_keys_page_query(table: &str) -> (s: String)
    ensures
        s@ == sqlite_list_keys_page_text(table@),
{
    let mut s = String::new();
    push_str(&mut s, "SELECT namespace, parent_path, kind, name FROM ");
    let q = quoted_identifier(table);
    push_str(&mut s, q.as_str());
    push_str(&mut s, "\n         WHERE namespace = ?1 AND parent_path = ?2 AND kind = ?3\n           AND (?4 IS NULL OR name < ?4)\n         ORDER BY name DESC\n         LIMIT ?5");
    assert(s@ =~= sqlite_list_keys_page_text(table@));
    s
}

/// The text of [`list_entries_page_query`].
pub open spec fn sqlite_list_entries_page_text(table: Seq<char>) -> Seq<char> {
    "SELECT namespace, parent_path, kind, name, value FROM "@ + quoted(table) + "\n         WHERE namespace = ?1 AND parent_path = ?2 AND kind = ?3\n           AND (?4 IS NULL OR name < ?4)\n         ORDER BY name DESC\n         LIMIT ?5"@
}

/// The query that reads one page of child entries, last name first.
pub fn list_entries_page_query(table: &str) -> (s: String)
    ensures
        s@ == sqlite_list_entries_page_text(table@),
{
    let mut s = String::new();
    push_str(&mut s, "SELECT namespace, parent_path, kind, name, value FROM ");
    let q = quoted_identifier(table);
    push_str(&mut s, q.as_str());
    push_str(&mut s, "\n         WHERE namespace = ?1 AND parent_path = ?2 AND kind = ?3\n           AND (?4 IS NULL OR name < ?4)\n         ORDER BY name DESC\n         LIMIT ?5");
    assert(s@ =~= sqlite_list_entries_page_text(table@));
    s
}

/// The text of [`create_migration_table_statement`].
pub open spec fn sqlite_create_migration_table_text(table: Seq<char>) -> Seq<char> {
    "CREATE TABLE "@ + quoted(table) + " (\n                namespace TEXT NOT NULL,\n                parent_path TEXT NOT NULL,\n                kind TEXT NOT NULL,\n                name TEXT NOT NULL,\n                value BLOB NOT NULL,\n                PRIMARY KEY (namespace, parent_path, kind, name)\n            ) WITHOUT ROWID"@
}

/// The table statement without `IF NOT EXISTS`, for a fresh migration table.
pub fn create_migration_table_statement(table: &str) -> (s: String)
    ensures
        s@ == sqlite_create_migration_table_text(table@),
{
    let mut s = String::new();
    push_str(&mut s, "CREATE TABLE ");
    let q = quoted_identifier(table);
    push_str(&mut s, q.as_str());
    push_str(&mut s, " (\n                namespace TEXT NOT NULL,\n                parent_path TEXT NOT NULL,\n                kind TEXT NOT NULL,\n                name TEXT NOT NULL,\n                value BLOB NOT NULL,\n                PRIMARY KEY (namespace, parent_path, kind, name)\n            ) WITHOUT ROWID");
    assert(s@ =~= sqlite_create_migration_table_text(table@));
    s
}

} // verus!
