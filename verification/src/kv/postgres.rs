//! SQL of the Postgres store: one row per resource key, keyed by
//! namespace, parent path, kind and name.

use vstd::prelude::*;
use crate::kv::shared::{quoted, quoted_identifier};
use crate::text::{owned, push_str};
use crate::kv::options::{ListOptions, Order};
use crate::kv::list_sql::{filter_clause, filter_text, limit_clause, limit_text, order_sql, order_text};

verus! {

/// The text of [`create_table_statement`].
pub open spec fn pg_create_table_text(table: Seq<char>) -> Seq<char> {
    "CREATE TABLE IF NOT EXISTS "@ + quoted(table) + " (\n                namespace TEXT NOT NULL,\n                parent_path TEXT NOT NULL,\n                kind TEXT NOT NULL,\n                name TEXT NOT NULL,\n                value BYTEA NOT NULL,\n                PRIMARY KEY (namespace, parent_path, kind, name)\n            )"@
}

/// The statement that creates the store table.
pub fn create_table_statement(table: &str) -> (s: String)
    ensures
        s@ == pg_create_table_text(table@),
{
    let mut s = String::new();
    push_str(&mut s, "CREATE TABLE IF NOT EXISTS ");
    let q = quoted_identifier(table);
    push_str(&mut s, q.as_str());
    push_str(&mut s, " (\n                namespace TEXT NOT NULL,\n                parent_path TEXT NOT NULL,\n                kind TEXT NOT NULL,\n                name TEXT NOT NULL,\n                value BYTEA NOT NULL,\n                PRIMARY KEY (namespace, parent_path, kind, name)\n            )");
    assert(s@ =~= pg_create_table_text(table@));
    s
}

/// The text of [`get_query`].
pub open spec fn pg_get_text(table: Seq<char>) -> Seq<char> {
    "SELECT value FROM "@ + quoted(table) + "\n         WHERE namespace = $1 AND parent_path = $2 AND kind = $3 AND name = $4"@
}

/// The query that reads one value.
pub fn get_query(table: &str) -> (s: String)
    ensures
        s@ == pg_get_text(table@),
{
    let mut s = String::new();
    push_str(&mut s, "SELECT value FROM ");
    let q = quoted_identifier(table);
    push_str(&mut s, q.as_str());
    push_str(&mut s, "\n         WHERE namespace = $1 AND parent_path = $2 AND kind = $3 AND name = $4");
    assert(s@ =~= pg_get_text(table@));
    s
}

/// The text of [`set_query`].
pub open spec fn pg_set_text(table: Seq<char>) -> Seq<char> {
    "INSERT INTO "@ + quoted(table) + " (namespace, parent_path, kind, name, value)\n             VALUES ($1, $2, $3, $4, $5)\n             ON CONFLICT (namespace, parent_path, kind, name)\n             DO UPDATE SET value = excluded.value"@
}

/// The statement that writes one value.
pub fn set_query(table: &str) -> (s: String)
    ensures
        s@ == pg_set_text(table@),
{
    let mut s = String::new();
    push_str(&mut s, "INSERT INTO ");
    let q = quoted_identifier(table);
    push_str(&mut s, q.as_str());
    push_str(&mut s, " (namespace, parent_path, kind, name, value)\n             VALUES ($1, $2, $3, $4, $5)\n             ON CONFLICT (namespace, parent_path, kind, name)\n             DO UPDATE SET value = excluded.value");
    assert(s@ =~= pg_set_text(table@));
    s
}

/// The text of [`compare_and_swap_query`].
pub open spec fn pg_compare_and_swap_text(table: Seq<char>, expected: bool) -> Seq<char> {
    if expected {
        "UPDATE "@ + quoted(table) + " SET value = $5\n             WHERE namespace = $1 AND parent_path = $2 AND kind = $3 AND name = $4 AND value = $6"@
    } else {
        "INSERT INTO "@ + quoted(table) + " (namespace, parent_path, kind, name, value)\n             VALUES ($1, $2, $3, $4, $5)\n             ON CONFLICT (namespace, parent_path, kind, name) DO NOTHING"@
    }
}

/// The statement that writes a value only over the expected one, or only where none exists.
pub fn compare_and_swap_query(table: &str, expected: bool) -> (s: String)
    ensures
        s@ == pg_compare_and_swap_text(table@, expected),
{
    let q = quoted_identifier(table);
    let mut s = String::new();
    if expected {
        push_str(&mut s, "UPDATE ");
        push_str(&mut s, q.as_str());
        push_str(&mut s, " SET value = $5\n             WHERE namespace = $1 AND parent_path = $2 AND kind = $3 AND name = $4 AND value = $6");
    } else {
        push_str(&mut s, "INSERT INTO ");
        push_str(&mut s, q.as_str());
        push_str(&mut s, " (namespace, parent_path, kind, name, value)\n             VALUES ($1, $2, $3, $4, $5)\n             ON CONFLICT (namespace, parent_path, kind, name) DO NOTHING");
    }
    assert(s@ =~= pg_compare_and_swap_text(table@, expected));
    s
}

/// The text of [`delete_query`].
pub open spec fn pg_delete_text(table: Seq<char>) -> Seq<char> {
    "DELETE FROM "@ + quoted(table) + "\n         WHERE namespace = $1 AND parent_path = $2 AND kind = $3 AND name = $4"@
}

/// The statement that deletes one key.
pub fn delete_query(table: &str) -> (s: String)
    ensures
        s@ == pg_delete_text(table@),
{
    let mut s = String::new();
    push_str(&mut s, "DELETE FROM ");
    let q = quoted_identifier(table);
    push_str(&mut s, q.as_str());
    push_str(&mut s, "\n         WHERE namespace = $1 AND parent_path = $2 AND kind = $3 AND name = $4");
    assert(s@ =~= pg_delete_text(table@));
    s
}

/// `ASC` or `DESC`.
pub fn list_order_sql(order: Order) -> (s: &'static str)
    ensures
        s@ == order_text(order),
{
    order_sql(order)
}

/// The filter conditions of a listing.
pub fn list_filter_clause(has_kind: bool, options: ListOptions<'_>) -> (s: String)
    ensures
        s@ == filter_text(has_kind, options, '$'),
{
    filter_clause(has_kind, options, '$')
}

/// The `LIMIT` clause of a listing.
pub fn list_limit_clause(has_kind: bool, options: ListOptions<'_>) -> (s: String)
    ensures
        s@ == limit_text(has_kind, options, '$'),
{
    limit_clause(has_kind, options, '$')
}

/// The text of [`list_keys_query`].
pub open spec fn pg_list_keys_query_text(table: Seq<char>, has_kind: bool, options: ListOptions) -> Seq<char> {
    "SELECT namespace, parent_path, kind, name FROM "@ + quoted(table) + "\n         WHERE namespace = $1 AND parent_path = $2 "@ + filter_text(has_kind, options, '$') + "\n         ORDER BY kind "@
        + order_text(options.order) + ", name "@ + order_text(options.order) + limit_text(
        has_kind,
        options,
        '$',
    )
}

/// The query that lists the keys of direct children.
pub fn list_keys_query(table: &str, has_kind: bool, options: ListOptions<'_>) -> (s: String)
    ensures
        s@ == pg_list_keys_query_text(table@, has_kind, options),
{
    let filter = list_filter_clause(has_kind, options);
    let limit = list_limit_clause(has_kind, options);
    let direction = list_order_sql(options.order);
    let q = quoted_identifier(table);
    let mut s = owned("SELECT namespace, parent_path, kind, name FROM ");
    push_str(&mut s, q.as_str());
    push_str(&mut s, "\n         WHERE namespace = $1 AND parent_path = $2 ");
    push_str(&mut s, filter.as_str());
    push_str(&mut s, "\n         ORDER BY kind ");
    push_str(&mut s, direction);
    push_str(&mut s, ", name ");
    push_str(&mut s, direction);
    push_str(&mut s, limit.as_str());
    assert(s@ =~= pg_list_keys_query_text(table@, has_kind, options));
    s
}

/// The text of [`list_entries_query`].
pub open spec fn pg_list_entries_query_text(table: Seq<char>, has_kind: bool, options: ListOptions) -> Seq<char> {
    "SELECT namespace, parent_path, kind, name, value FROM "@ + quoted(table) + "\n         WHERE namespace = $1 AND parent_path = $2 "@ + filter_text(has_kind, options, '$') + "\n         ORDER BY kind "@
        + order_text(options.order) + ", name "@ + order_text(options.order) + limit_text(
        has_kind,
        options,
        '$',
    )
}

/// The query that lists the keys and values of direct children.
pub fn list_entries_query(table: &str, has_kind: bool, options: ListOptions<'_>) -> (s: String)
    ensures
        s@ == pg_list_entries_query_text(table@, has_kind, options),
{
    let filter = list_filter_clause(has_kind, options);
    let limit = list_limit_clause(has_kind, options);
    let direction = list_order_sql(options.order);
    let q = quoted_identifier(table);
    let mut s = owned("SELECT namespace, parent_path, kind, name, value FROM ");
    push_str(&mut s, q.as_str());
    push_str(&mut s, "\n         WHERE namespace = $1 AND parent_path = $2 ");
    push_str(&mut s, filter.as_str());
    push_str(&mut s, "\n         ORDER BY kind ");
    push_str(&mut s, direction);
    push_str(&mut s, ", name ");
    push_str(&mut s, direction);
    push_str(&mut s, limit.as_str());
    assert(s@ =~= pg_list_entries_query_text(table@, has_kind, options));
    s
}

/// The text of [`list_keys_page_query`].
pub open spec fn pg_list_keys_page_text(table: Seq<char>) -> Seq<char> {
    "SELECT namespace, parent_path, kind, name FROM "@ + quoted(table) + "\n         WHERE namespace = $1 AND parent_path = $2 AND kind = $3\n           AND ($4 IS NULL OR name < $4)\n         ORDER BY name DESC\n         LIMIT $5"@
}

/// The query that reads one page of child keys, last name first.
pub fn list_keys_page_query(table: &str) -> (s: String)
    ensures
        s@ == pg_list_keys_page_text(table@),
{
    let mut s = String::new();
    push_str(&mut s, "SELECT namespace, parent_path, kind, name FROM ");
    let q = quoted_identifier(table);
    push_str(&mut s, q.as_str());
    push_str(&mut s, "\n         WHERE namespace = $1 AND parent_path = $2 AND kind = $3\n           AND ($4 IS NULL OR name < $4)\n         ORDER BY name DESC\n         LIMIT $5");
    assert(s@ =~= pg_list_keys_page_text(table@));
    s
}

/// The text of [`list_entries_page_query`].
pub open spec fn pg_list_entries_page_text(table: Seq<char>) -> Seq<char> {
    "SELECT namespace, parent_path, kind, name, value FROM "@ + quoted(table) + "\n         WHERE namespace = $1 AND parent_path = $2 AND kind = $3\n           AND ($4 IS NULL OR name < $4)\n         ORDER BY name DESC\n         LIMIT $5"@
}

/// The query that reads one page of child entries, last name first.
pub fn list_entries_page_query(table: &str) -> (s: String)
    ensures
        s@ == pg_list_entries_page_text(table@),
{
    let mut s = String::new();
    push_str(&mut s, "SELECT namespace, parent_path, kind, name, value FROM ");
    let q = quoted_identifier(table);
    push_str(&mut s, q.as_str());
    push_str(&mut s, "\n         WHERE namespace = $1 AND parent_path = $2 AND kind = $3\n           AND ($4 IS NULL OR name < $4)\n         ORDER BY name DESC\n         LIMIT $5");
    assert(s@ =~= pg_list_entries_page_text(table@));
    s
}

/// The query that lists the columns of a table, to detect the legacy layout.
pub fn legacy_columns_query() -> (s: &'static str)
    ensures
        s@ == "SELECT column_name FROM information_schema.columns WHERE table_schema = current_schema() AND table_name = $1"@,
{
    "SELECT column_name FROM information_schema.columns WHERE table_schema = current_schema() AND table_name = $1"
}

/// The text of [`create_migration_table_statement`].
pub open spec fn pg_create_migration_table_text(table: Seq<char>) -> Seq<char> {
    "CREATE TABLE "@ + quoted(table) + " (\n                namespace TEXT NOT NULL,\n                parent_path TEXT NOT NULL,\n                kind TEXT NOT NULL,\n                name TEXT NOT NULL,\n                value BYTEA NOT NULL,\n                PRIMARY KEY (namespace, parent_path, kind, name)\n            )"@
}

/// The table statement without `IF NOT EXISTS`, for a fresh migration table.
pub fn create_migration_table_statement(table: &str) -> (s: String)
    ensures
        s@ == pg_create_migration_table_text(table@),
{
    let mut s = String::new();
    push_str(&mut s, "CREATE TABLE ");
    let q = quoted_identifier(table);
    push_str(&mut s, q.as_str());
    push_str(&mut s, " (\n                namespace TEXT NOT NULL,\n                parent_path TEXT NOT NULL,\n                kind TEXT NOT NULL,\n                name TEXT NOT NULL,\n                value BYTEA NOT NULL,\n                PRIMARY KEY (namespace, parent_path, kind, name)\n            )");
    assert(s@ =~= pg_create_migration_table_text(table@));
    s
}

/// The text of [`rename_migration_index_statement`].
pub open spec fn pg_rename_migration_index_text(table: Seq<char>, migration_table: Seq<char>) -> Seq<char> {
    "ALTER INDEX IF EXISTS "@ + quoted(migration_table + "_pkey"@) + " RENAME TO "@ + quoted(
        table + "_pkey"@,
    )
}

/// The statement that renames the primary key index of a migrated table.
pub fn rename_migration_index_statement(table: &str, migration_table: &str) -> (s: String)
    ensures
        s@ == pg_rename_migration_index_text(table@, migration_table@),
{
    let mut old_index = owned(migration_table);
    push_str(&mut old_index, "_pkey");
    let mut new_index = owned(table);
    push_str(&mut new_index, "_pkey");
    let mut s = owned("ALTER INDEX IF EXISTS ");
    let q1 = quoted_identifier(old_index.as_str());
    push_str(&mut s, q1.as_str());
    push_str(&mut s, " RENAME TO ");
    let q2 = quoted_identifier(new_index.as_str());
    push_str(&mut s, q2.as_str());
    assert(s@ =~= pg_rename_migration_index_text(table@, migration_table@));
    s
}

/// The text of [`insert_query`].
pub open spec fn pg_insert_text(table: Seq<char>) -> Seq<char> {
    "INSERT INTO "@ + quoted(table) + " (namespace, parent_path, kind, name, value)\n         VALUES ($1, $2, $3, $4, $5)\n         ON CONFLICT (namespace, parent_path, kind, name)\n         DO UPDATE SET value = excluded.value"@
}

/// The statement that copies one row into a migration table.
pub fn insert_query(table: &str) -> (s: String)
    ensures
        s@ == pg_insert_text(table@),
{
    let mut s = String::new();
    push_str(&mut s, "INSERT INTO ");
    let q = quoted_identifier(table);
    push_str(&mut s, q.as_str());
    push_str(&mut s, " (namespace, parent_path, kind, name, value)\n         VALUES ($1, $2, $3, $4, $5)\n         ON CONFLICT (namespace, parent_path, kind, name)\n         DO UPDATE SET value = excluded.value");
    assert(s@ =~= pg_insert_text(table@));
    s
}

} // verus!
