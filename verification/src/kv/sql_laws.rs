//! Laws of the key-value stores' SQL texts: what each statement reads,
//! writes or compares, stated over the text itself.

use vstd::prelude::*;
use crate::kv::list_sql::{bind_text, filter_parts, filter_text, first_free_bind, join_space, limit_text, order_text};
use crate::kv::options::ListOptions;
use crate::kv::shared::{identifier_problem, quoted};
use crate::kv::{postgres, sqlite, sqlite_sql};
use crate::text::{is_ascii_alphabetic, is_ascii_alphanumeric, occurs_at};

verus! {

/// `pat` occurs somewhere in `s`.
pub open spec fn has_text(s: Seq<char>, pat: Seq<char>) -> bool {
    exists|i: int| occurs_at(s, pat, i)
}

/// `c` occurs nowhere in `s`.
pub open spec fn lacks_char(s: Seq<char>, c: char) -> bool {
    forall|i: int| 0 <= i < s.len() ==> s[i] != c
}

/// Every `<` in `s` is followed by a space: `s` compares by strict
/// less-than only (no `<=`, no `<>`).
pub open spec fn strict_less_only(s: Seq<char>) -> bool {
    forall|i: int| 0 <= i < s.len() && #[trigger] s[i] == '<' ==> i + 1 < s.len() && s[i + 1] == ' '
}

/// Every `>` in `s` is followed by a space: `s` compares by strict
/// greater-than only (no `>=`).
pub open spec fn strict_greater_only(s: Seq<char>) -> bool {
    forall|i: int| 0 <= i < s.len() && #[trigger] s[i] == '>' ==> i + 1 < s.len() && s[i + 1] == ' '
}

/// A table name the stores accept.
pub open spec fn accepted_table(table: Seq<char>) -> bool {
    identifier_problem(table) is None
}

/// A statement that touches only the row of one key: it compares the
/// namespace, parent path, kind and name each with its own bind (1 to 4) by
/// `=`, and compares nothing by order.
pub open spec fn matches_one_key(t: Seq<char>, sigil: char) -> bool {
    &&& has_text(t, "namespace = "@ + bind_text(sigil, 1))
    &&& has_text(t, "parent_path = "@ + bind_text(sigil, 2))
    &&& has_text(t, "kind = "@ + bind_text(sigil, 3))
    &&& has_text(t, "name = "@ + bind_text(sigil, 4))
    &&& lacks_char(t, '<')
    &&& lacks_char(t, '>')
}

/// A compare-and-swap over an expected value: it sets the value to the
/// new-value bind (5), on the key's row only, where the stored value equals
/// the expected-value bind (6).
pub open spec fn swaps_expected(t: Seq<char>, sigil: char) -> bool {
    &&& has_text(t, "SET value = "@ + bind_text(sigil, 5))
    &&& has_text(t, "AND value = "@ + bind_text(sigil, 6))
    &&& matches_one_key(t, sigil)
}

/// A write only where no row exists: the key's binds (1 to 4) and the new
/// value (5) are inserted, and a conflicting row is left alone.
pub open spec fn inserts_if_absent(t: Seq<char>, sigil: char) -> bool {
    &&& has_text(
        t,
        "VALUES ("@ + bind_text(sigil, 1) + ", "@ + bind_text(sigil, 2) + ", "@ + bind_text(sigil, 3)
            + ", "@ + bind_text(sigil, 4) + ", "@ + bind_text(sigil, 5) + ")"@,
    )
    &&& has_text(t, "DO NOTHING"@)
}

/// One page of a kind's children below a name cursor: names strictly below
/// the cursor bind (4), every row when it is null, last name first, at most
/// the limit bind (5); nothing is compared by `<=`, `>` or `>=`.
pub open spec fn strict_page(t: Seq<char>, sigil: char) -> bool {
    &&& has_text(t, "kind = "@ + bind_text(sigil, 3))
    &&& has_text(t, "("@ + bind_text(sigil, 4) + " IS NULL OR name < "@ + bind_text(sigil, 4) + ")"@)
    &&& strict_less_only(t)
    &&& lacks_char(t, '>')
    &&& has_text(t, "ORDER BY name DESC"@)
    &&& has_text(t, "LIMIT "@ + bind_text(sigil, 5))
}

/// The cursor conditions of a listing: names strictly below the
/// before-cursor's bind exactly when there is a before-cursor, and strictly
/// above the after-cursor's bind exactly when there is an after-cursor.
pub open spec fn cursor_conditions(t: Seq<char>, has_kind: bool, options: ListOptions, sigil: char) -> bool {
    let first = first_free_bind(has_kind);
    let after = if options.before_name is Some {
        (first + 1) as u8
    } else {
        first
    };
    &&& options.before_name is Some ==> has_text(t, "AND name < "@ + bind_text(sigil, first))
    &&& options.before_name is None ==> lacks_char(t, '<')
    &&& options.after_name is Some ==> has_text(t, "AND name > "@ + bind_text(sigil, after))
    &&& options.after_name is None ==> lacks_char(t, '>')
    &&& strict_less_only(t)
    &&& strict_greater_only(t)
}

// ---------------------------------------------------------------------------
// Text facts

proof fn lemma_has_text_right(a: Seq<char>, b: Seq<char>, p: Seq<char>)
    requires
        has_text(b, p),
    ensures
        has_text(a + b, p),
{
    let i = choose|i: int| occurs_at(b, p, i);
    assert((a + b).subrange(a.len() + i, a.len() + i + p.len()) =~= b.subrange(i, i + p.len()));
    assert(occurs_at(a + b, p, a.len() + i));
}

proof fn lemma_has_text_left(a: Seq<char>, b: Seq<char>, p: Seq<char>)
    requires
        has_text(a, p),
    ensures
        has_text(a + b, p),
{
    let i = choose|i: int| occurs_at(a, p, i);
    assert((a + b).subrange(i, i + p.len()) =~= a.subrange(i, i + p.len()));
    assert(occurs_at(a + b, p, i));
}

proof fn lemma_has_text_at(s: Seq<char>, p: Seq<char>, i: int)
    requires
        0 <= i,
        i + p.len() <= s.len(),
        s.subrange(i, i + p.len()) == p,
    ensures
        has_text(s, p),
{
    assert(occurs_at(s, p, i));
}

proof fn lemma_lacks_add(a: Seq<char>, b: Seq<char>, c: char)
    requires
        lacks_char(a, c),
        lacks_char(b, c),
    ensures
        lacks_char(a + b, c),
{
    assert forall|i: int| 0 <= i < (a + b).len() implies (a + b)[i] != c by {
        if i < a.len() {
            assert((a + b)[i] == a[i]);
        } else {
            assert((a + b)[i] == b[i - a.len()]);
        }
    }
}

proof fn lemma_strict_add(a: Seq<char>, b: Seq<char>)
    requires
        strict_less_only(a),
        strict_less_only(b),
        strict_greater_only(a),
        strict_greater_only(b),
    ensures
        strict_less_only(a + b),
        strict_greater_only(a + b),
{
    assert forall|i: int| 0 <= i < (a + b).len() && #[trigger] (a + b)[i] == '<' implies i + 1 < (a + b).len() && (a
        + b)[i + 1] == ' ' by {
        if i < a.len() {
            assert((a + b)[i] == a[i]);
            assert((a + b)[i + 1] == a[i + 1]);
        } else {
            assert((a + b)[i] == b[i - a.len()]);
            assert((a + b)[i + 1] == b[i + 1 - a.len()]);
        }
    }
    assert forall|i: int| 0 <= i < (a + b).len() && #[trigger] (a + b)[i] == '>' implies i + 1 < (a + b).len() && (a
        + b)[i + 1] == ' ' by {
        if i < a.len() {
            assert((a + b)[i] == a[i]);
            assert((a + b)[i + 1] == a[i + 1]);
        } else {
            assert((a + b)[i] == b[i - a.len()]);
            assert((a + b)[i + 1] == b[i + 1 - a.len()]);
        }
    }
}

proof fn lemma_lacks_strict(s: Seq<char>)
    requires
        lacks_char(s, '<'),
        lacks_char(s, '>'),
    ensures
        strict_less_only(s),
        strict_greater_only(s),
{
}

/// An accepted table name, quoted, holds no comparison sign.
proof fn lemma_quoted_table(table: Seq<char>)
    requires
        accepted_table(table),
    ensures
        lacks_char(quoted(table), '<'),
        lacks_char(quoted(table), '>'),
        strict_less_only(quoted(table)),
        strict_greater_only(quoted(table)),
{
    let q = quoted(table);
    assert forall|i: int| 0 <= i < q.len() implies q[i] != '<' && q[i] != '>' by {
        if i == 0 || i == q.len() - 1 {
        } else {
            let j = i - 1;
            assert(q[i] == table[j]);
            if j == 0 {
                assert(is_ascii_alphabetic(table[0]) || table[0] == '_');
            } else {
                assert(is_ascii_alphanumeric(table[j]) || table[j] == '_');
            }
        }
    }
}

/// A statement `head`, the quoted table, then `tail`: what both pieces lack
/// of comparison signs, the statement lacks.
proof fn lemma_around_table(head: Seq<char>, table: Seq<char>, tail: Seq<char>)
    requires
        accepted_table(table),
        strict_less_only(head),
        strict_less_only(tail),
        strict_greater_only(head),
        strict_greater_only(tail),
    ensures
        strict_less_only(head + quoted(table) + tail),
        strict_greater_only(head + quoted(table) + tail),
        lacks_char(head, '<') && lacks_char(tail, '<') ==> lacks_char(head + quoted(table) + tail, '<'),
        lacks_char(head, '>') && lacks_char(tail, '>') ==> lacks_char(head + quoted(table) + tail, '>'),
{
    lemma_quoted_table(table);
    lemma_strict_add(head, quoted(table));
    lemma_strict_add(head + quoted(table), tail);
    if lacks_char(head, '<') && lacks_char(tail, '<') {
        lemma_lacks_add(head, quoted(table), '<');
        lemma_lacks_add(head + quoted(table), tail, '<');
    }
    if lacks_char(head, '>') && lacks_char(tail, '>') {
        lemma_lacks_add(head, quoted(table), '>');
        lemma_lacks_add(head + quoted(table), tail, '>');
    }
}

/// The SQLite get statement reads the row of the given key and no other:
/// it equates each key column with its own bind and compares nothing by
/// order.
pub proof fn law_sqlite_get_one_key(table: Seq<char>)
    requires
        accepted_table(table),
    ensures
        matches_one_key(sqlite::sqlite_get_text(table), '?'),
{
    reveal_strlit("SELECT value FROM ");
    reveal_strlit("\n         WHERE namespace = ?1 AND parent_path = ?2 AND kind = ?3 AND name = ?4");
    let head = "SELECT value FROM "@;
    let tail = "\n         WHERE namespace = ?1 AND parent_path = ?2 AND kind = ?3 AND name = ?4"@;
    assert(strict_less_only(head) && strict_greater_only(head) && lacks_char(head, '<') && lacks_char(head, '>'));
    assert(strict_less_only(tail) && strict_greater_only(tail));
    assert(lacks_char(tail, '<'));
    assert(lacks_char(tail, '>'));
    lemma_around_table(head, table, tail);
    assert(tail.subrange(16, 30) =~= "namespace = "@ + bind_text('?', 1)) by {
        reveal_strlit("namespace = ");
    }
    lemma_has_text_at(tail, "namespace = "@ + bind_text('?', 1), 16);
    lemma_has_text_right(head + quoted(table), tail, "namespace = "@ + bind_text('?', 1));
    assert(tail.subrange(35, 51) =~= "parent_path = "@ + bind_text('?', 2)) by {
        reveal_strlit("parent_path = ");
    }
    lemma_has_text_at(tail, "parent_path = "@ + bind_text('?', 2), 35);
    lemma_has_text_right(head + quoted(table), tail, "parent_path = "@ + bind_text('?', 2));
    assert(tail.subrange(56, 65) =~= "kind = "@ + bind_text('?', 3)) by {
        reveal_strlit("kind = ");
    }
    lemma_has_text_at(tail, "kind = "@ + bind_text('?', 3), 56);
    lemma_has_text_right(head + quoted(table), tail, "kind = "@ + bind_text('?', 3));
    assert(tail.subrange(70, 79) =~= "name = "@ + bind_text('?', 4)) by {
        reveal_strlit("name = ");
    }
    lemma_has_text_at(tail, "name = "@ + bind_text('?', 4), 70);
    lemma_has_text_right(head + quoted(table), tail, "name = "@ + bind_text('?', 4));
}

/// The SQLite delete statement deletes the row of the given key and no other:
/// it equates each key column with its own bind and compares nothing by
/// order.
pub proof fn law_sqlite_delete_one_key(table: Seq<char>)
    requires
        accepted_table(table),
    ensures
        matches_one_key(sqlite::sqlite_delete_text(table), '?'),
{
    reveal_strlit("DELETE FROM ");
    reveal_strlit("\n         WHERE namespace = ?1 AND parent_path = ?2 AND kind = ?3 AND name = ?4");
    let head = "DELETE FROM "@;
    let tail = "\n         WHERE namespace = ?1 AND parent_path = ?2 AND kind = ?3 AND name = ?4"@;
    assert(strict_less_only(head) && strict_greater_only(head) && lacks_char(head, '<') && lacks_char(head, '>'));
    assert(strict_less_only(tail) && strict_greater_only(tail));
    assert(lacks_char(tail, '<'));
    assert(lacks_char(tail, '>'));
    lemma_around_table(head, table, tail);
    assert(tail.subrange(16, 30) =~= "namespace = "@ + bind_text('?', 1)) by {
        reveal_strlit("namespace = ");
    }
    lemma_has_text_at(tail, "namespace = "@ + bind_text('?', 1), 16);
    lemma_has_text_right(head + quoted(table), tail, "namespace = "@ + bind_text('?', 1));
    assert(tail.subrange(35, 51) =~= "parent_path = "@ + bind_text('?', 2)) by {
        reveal_strlit("parent_path = ");
    }
    lemma_has_text_at(tail, "parent_path = "@ + bind_text('?', 2), 35);
    lemma_has_text_right(head + quoted(table), tail, "parent_path = "@ + bind_text('?', 2));
    assert(tail.subrange(56, 65) =~= "kind = "@ + bind_text('?', 3)) by {
        reveal_strlit("kind = ");
    }
    lemma_has_text_at(tail, "kind = "@ + bind_text('?', 3), 56);
    lemma_has_text_right(head + quoted(table), tail, "kind = "@ + bind_text('?', 3));
    assert(tail.subrange(70, 79) =~= "name = "@ + bind_text('?', 4)) by {
        reveal_strlit("name = ");
    }
    lemma_has_text_at(tail, "name = "@ + bind_text('?', 4), 70);
    lemma_has_text_right(head + quoted(table), tail, "name = "@ + bind_text('?', 4));
}

/// The SQLite compare-and-swap over an expected value writes the new
/// value (bind 5) into the key's row only where it holds the expected one
/// (bind 6); without one it inserts the key and value only where no row is.
pub proof fn law_sqlite_swap_writes_new_value(table: Seq<char>)
    requires
        accepted_table(table),
    ensures
        swaps_expected(sqlite::sqlite_compare_and_swap_text(table, true), '?'),
        inserts_if_absent(sqlite::sqlite_compare_and_swap_text(table, false), '?'),
{
    {
        reveal_strlit("UPDATE ");
        reveal_strlit(" SET value = ?5\n             WHERE namespace = ?1 AND parent_path = ?2 AND kind = ?3 AND name = ?4 AND value = ?6");
        let head = "UPDATE "@;
        let tail = " SET value = ?5\n             WHERE namespace = ?1 AND parent_path = ?2 AND kind = ?3 AND name = ?4 AND value = ?6"@;
        assert(strict_less_only(head) && strict_greater_only(head) && lacks_char(head, '<') && lacks_char(head, '>'));
        assert(strict_less_only(tail) && strict_greater_only(tail));
        assert(lacks_char(tail, '<'));
        assert(lacks_char(tail, '>'));
        lemma_around_table(head, table, tail);
        assert(tail.subrange(1, 15) =~= "SET value = "@ + bind_text('?', 5)) by {
            reveal_strlit("SET value = ");
        }
        lemma_has_text_at(tail, "SET value = "@ + bind_text('?', 5), 1);
        lemma_has_text_right(head + quoted(table), tail, "SET value = "@ + bind_text('?', 5));
        assert(tail.subrange(99, 113) =~= "AND value = "@ + bind_text('?', 6)) by {
            reveal_strlit("AND value = ");
        }
        lemma_has_text_at(tail, "AND value = "@ + bind_text('?', 6), 99);
        lemma_has_text_right(head + quoted(table), tail, "AND value = "@ + bind_text('?', 6));
        assert(tail.subrange(35, 49) =~= "namespace = "@ + bind_text('?', 1)) by {
            reveal_strlit("namespace = ");
        }
        lemma_has_text_at(tail, "namespace = "@ + bind_text('?', 1), 35);
        lemma_has_text_right(head + quoted(table), tail, "namespace = "@ + bind_text('?', 1));
        assert(tail.subrange(54, 70) =~= "parent_path = "@ + bind_text('?', 2)) by {
            reveal_strlit("parent_path = ");
        }
        lemma_has_text_at(tail, "parent_path = "@ + bind_text('?', 2), 54);
        lemma_has_text_right(head + quoted(table), tail, "parent_path = "@ + bind_text('?', 2));
        assert(tail.subrange(75, 84) =~= "kind = "@ + bind_text('?', 3)) by {
            reveal_strlit("kind = ");
        }
        lemma_has_text_at(tail, "kind = "@ + bind_text('?', 3), 75);
        lemma_has_text_right(head + quoted(table), tail, "kind = "@ + bind_text('?', 3));
        assert(tail.subrange(89, 98) =~= "name = "@ + bind_text('?', 4)) by {
            reveal_strlit("name = ");
        }
        lemma_has_text_at(tail, "name = "@ + bind_text('?', 4), 89);
        lemma_has_text_right(head + quoted(table), tail, "name = "@ + bind_text('?', 4));
    }
    {
        reveal_strlit("INSERT INTO ");
        reveal_strlit(" (namespace, parent_path, kind, name, value)\n             VALUES (?1, ?2, ?3, ?4, ?5)\n             ON CONFLICT (namespace, parent_path, kind, name) DO NOTHING");
        let head = "INSERT INTO "@;
        let tail = " (namespace, parent_path, kind, name, value)\n             VALUES (?1, ?2, ?3, ?4, ?5)\n             ON CONFLICT (namespace, parent_path, kind, name) DO NOTHING"@;
        assert(strict_less_only(head) && strict_greater_only(head) && lacks_char(head, '<') && lacks_char(head, '>'));
        assert(strict_less_only(tail) && strict_greater_only(tail));
        lemma_around_table(head, table, tail);
        assert(tail.subrange(58, 85) =~= "VALUES ("@ + bind_text('?', 1) + ", "@ + bind_text('?', 2) + ", "@ + bind_text('?', 3) + ", "@ + bind_text('?', 4) + ", "@ + bind_text('?', 5) + ")"@) by {
            reveal_strlit("VALUES (");
            reveal_strlit(", ");
            reveal_strlit(", ");
            reveal_strlit(", ");
            reveal_strlit(", ");
            reveal_strlit(")");
        }
        lemma_has_text_at(tail, "VALUES ("@ + bind_text('?', 1) + ", "@ + bind_text('?', 2) + ", "@ + bind_text('?', 3) + ", "@ + bind_text('?', 4) + ", "@ + bind_text('?', 5) + ")"@, 58);
        lemma_has_text_right(head + quoted(table), tail, "VALUES ("@ + bind_text('?', 1) + ", "@ + bind_text('?', 2) + ", "@ + bind_text('?', 3) + ", "@ + bind_text('?', 4) + ", "@ + bind_text('?', 5) + ")"@);
        assert(tail.subrange(148, 158) =~= "DO NOTHING"@) by {
            reveal_strlit("DO NOTHING");
        }
        lemma_has_text_at(tail, "DO NOTHING"@, 148);
        lemma_has_text_right(head + quoted(table), tail, "DO NOTHING"@);
    }
}

/// The SQLite page query of child keys selects names strictly below
/// the cursor (all names without one), last name first, at most the limit.
pub proof fn law_sqlite_keys_page_strict(table: Seq<char>)
    requires
        accepted_table(table),
    ensures
        strict_page(sqlite::sqlite_list_keys_page_text(table), '?'),
{
    reveal_strlit("SELECT namespace, parent_path, kind, name FROM ");
    reveal_strlit("\n         WHERE namespace = ?1 AND parent_path = ?2 AND kind = ?3\n           AND (?4 IS NULL OR name < ?4)\n         ORDER BY name DESC\n         LIMIT ?5");
    let head = "SELECT namespace, parent_path, kind, name FROM "@;
    let tail = "\n         WHERE namespace = ?1 AND parent_path = ?2 AND kind = ?3\n           AND (?4 IS NULL OR name < ?4)\n         ORDER BY name DESC\n         LIMIT ?5"@;
    assert(strict_less_only(head) && strict_greater_only(head) && lacks_char(head, '<') && lacks_char(head, '>'));
    assert(strict_less_only(tail) && strict_greater_only(tail));
    assert(lacks_char(tail, '>'));
    lemma_around_table(head, table, tail);
    assert(tail.subrange(56, 65) =~= "kind = "@ + bind_text('?', 3)) by {
        reveal_strlit("kind = ");
    }
    lemma_has_text_at(tail, "kind = "@ + bind_text('?', 3), 56);
    lemma_has_text_right(head + quoted(table), tail, "kind = "@ + bind_text('?', 3));
    assert(tail.subrange(81, 106) =~= "("@ + bind_text('?', 4) + " IS NULL OR name < "@ + bind_text('?', 4) + ")"@) by {
        reveal_strlit("(");
        reveal_strlit(" IS NULL OR name < ");
        reveal_strlit(")");
    }
    lemma_has_text_at(tail, "("@ + bind_text('?', 4) + " IS NULL OR name < "@ + bind_text('?', 4) + ")"@, 81);
    lemma_has_text_right(head + quoted(table), tail, "("@ + bind_text('?', 4) + " IS NULL OR name < "@ + bind_text('?', 4) + ")"@);
    assert(tail.subrange(116, 134) =~= "ORDER BY name DESC"@) by {
        reveal_strlit("ORDER BY name DESC");
    }
    lemma_has_text_at(tail, "ORDER BY name DESC"@, 116);
    lemma_has_text_right(head + quoted(table), tail, "ORDER BY name DESC"@);
    assert(tail.subrange(144, 152) =~= "LIMIT "@ + bind_text('?', 5)) by {
        reveal_strlit("LIMIT ");
    }
    lemma_has_text_at(tail, "LIMIT "@ + bind_text('?', 5), 144);
    lemma_has_text_right(head + quoted(table), tail, "LIMIT "@ + bind_text('?', 5));
}

/// The SQLite page query of child entries selects names strictly below
/// the cursor (all names without one), last name first, at most the limit.
pub proof fn law_sqlite_entries_page_strict(table: Seq<char>)
    requires
        accepted_table(table),
    ensures
        strict_page(sqlite::sqlite_list_entries_page_text(table), '?'),
{
    reveal_strlit("SELECT namespace, parent_path, kind, name, value FROM ");
    reveal_strlit("\n         WHERE namespace = ?1 AND parent_path = ?2 AND kind = ?3\n           AND (?4 IS NULL OR name < ?4)\n         ORDER BY name DESC\n         LIMIT ?5");
    let head = "SELECT namespace, parent_path, kind, name, value FROM "@;
    let tail = "\n         WHERE namespace = ?1 AND parent_path = ?2 AND kind = ?3\n           AND (?4 IS NULL OR name < ?4)\n         ORDER BY name DESC\n         LIMIT ?5"@;
    assert(strict_less_only(head) && strict_greater_only(head) && lacks_char(head, '<') && lacks_char(head, '>'));
    assert(strict_less_only(tail) && strict_greater_only(tail));
    assert(lacks_char(tail, '>'));
    lemma_around_table(head, table, tail);
    assert(tail.subrange(56, 65) =~= "kind = "@ + bind_text('?', 3)) by {
        reveal_strlit("kind = ");
    }
    lemma_has_text_at(tail, "kind = "@ + bind_text('?', 3), 56);
    lemma_has_text_right(head + quoted(table), tail, "kind = "@ + bind_text('?', 3));
    assert(tail.subrange(81, 106) =~= "("@ + bind_text('?', 4) + " IS NULL OR name < "@ + bind_text('?', 4) + ")"@) by {
        reveal_strlit("(");
        reveal_strlit(" IS NULL OR name < ");
        reveal_strlit(")");
    }
    lemma_has_text_at(tail, "("@ + bind_text('?', 4) + " IS NULL OR name < "@ + bind_text('?', 4) + ")"@, 81);
    lemma_has_text_right(head + quoted(table), tail, "("@ + bind_text('?', 4) + " IS NULL OR name < "@ + bind_text('?', 4) + ")"@);
    assert(tail.subrange(116, 134) =~= "ORDER BY name DESC"@) by {
        reveal_strlit("ORDER BY name DESC");
    }
    lemma_has_text_at(tail, "ORDER BY name DESC"@, 116);
    lemma_has_text_right(head + quoted(table), tail, "ORDER BY name DESC"@);
    assert(tail.subrange(144, 152) =~= "LIMIT "@ + bind_text('?', 5)) by {
        reveal_strlit("LIMIT ");
    }
    lemma_has_text_at(tail, "LIMIT "@ + bind_text('?', 5), 144);
    lemma_has_text_right(head + quoted(table), tail, "LIMIT "@ + bind_text('?', 5));
}

/// The Postgres get statement reads the row of the given key and no other:
/// it equates each key column with its own bind and compares nothing by
/// order.
pub proof fn law_postgres_get_one_key(table: Seq<char>)
    requires
        accepted_table(table),
    ensures
        matches_one_key(postgres::pg_get_text(table), '$'),
{
    reveal_strlit("SELECT value FROM ");
    reveal_strlit("\n         WHERE namespace = $1 AND parent_path = $2 AND kind = $3 AND name = $4");
    let head = "SELECT value FROM "@;
    let tail = "\n         WHERE namespace = $1 AND parent_path = $2 AND kind = $3 AND name = $4"@;
    assert(strict_less_only(head) && strict_greater_only(head) && lacks_char(head, '<') && lacks_char(head, '>'));
    assert(strict_less_only(tail) && strict_greater_only(tail));
    assert(lacks_char(tail, '<'));
    assert(lacks_char(tail, '>'));
    lemma_around_table(head, table, tail);
    assert(tail.subrange(16, 30) =~= "namespace = "@ + bind_text('$', 1)) by {
        reveal_strlit("namespace = ");
    }
    lemma_has_text_at(tail, "namespace = "@ + bind_text('$', 1), 16);
    lemma_has_text_right(head + quoted(table), tail, "namespace = "@ + bind_text('$', 1));
    assert(tail.subrange(35, 51) =~= "parent_path = "@ + bind_text('$', 2)) by {
        reveal_strlit("parent_path = ");
    }
    lemma_has_text_at(tail, "parent_path = "@ + bind_text('$', 2), 35);
    lemma_has_text_right(head + quoted(table), tail, "parent_path = "@ + bind_text('$', 2));
    assert(tail.subrange(56, 65) =~= "kind = "@ + bind_text('$', 3)) by {
        reveal_strlit("kind = ");
    }
    lemma_has_text_at(tail, "kind = "@ + bind_text('$', 3), 56);
    lemma_has_text_right(head + quoted(table), tail, "kind = "@ + bind_text('$', 3));
    assert(tail.subrange(70, 79) =~= "name = "@ + bind_text('$', 4)) by {
        reveal_strlit("name = ");
    }
    lemma_has_text_at(tail, "name = "@ + bind_text('$', 4), 70);
    lemma_has_text_right(head + quoted(table), tail, "name = "@ + bind_text('$', 4));
}

/// The Postgres delete statement deletes the row of the given key and no other:
/// it equates each key column with its own bind and compares nothing by
/// order.
pub proof fn law_postgres_delete_one_key(table: Seq<char>)
    requires
        accepted_table(table),
    ensures
        matches_one_key(postgres::pg_delete_text(table), '$'),
{
    reveal_strlit("DELETE FROM ");
    reveal_strlit("\n         WHERE namespace = $1 AND parent_path = $2 AND kind = $3 AND name = $4");
    let head = "DELETE FROM "@;
    let tail = "\n         WHERE namespace = $1 AND parent_path = $2 AND kind = $3 AND name = $4"@;
    assert(strict_less_only(head) && strict_greater_only(head) && lacks_char(head, '<') && lacks_char(head, '>'));
    assert(strict_less_only(tail) && strict_greater_only(tail));
    assert(lacks_char(tail, '<'));
    assert(lacks_char(tail, '>'));
    lemma_around_table(head, table, tail);
    assert(tail.subrange(16, 30) =~= "namespace = "@ + bind_text('$', 1)) by {
        reveal_strlit("namespace = ");
    }
    lemma_has_text_at(tail, "namespace = "@ + bind_text('$', 1), 16);
    lemma_has_text_right(head + quoted(table), tail, "namespace = "@ + bind_text('$', 1));
    assert(tail.subrange(35, 51) =~= "parent_path = "@ + bind_text('$', 2)) by {
        reveal_strlit("parent_path = ");
    }
    lemma_has_text_at(tail, "parent_path = "@ + bind_text('$', 2), 35);
    lemma_has_text_right(head + quoted(table), tail, "parent_path = "@ + bind_text('$', 2));
    assert(tail.subrange(56, 65) =~= "kind = "@ + bind_text('$', 3)) by {
        reveal_strlit("kind = ");
    }
    lemma_has_text_at(tail, "kind = "@ + bind_text('$', 3), 56);
    lemma_has_text_right(head + quoted(table), tail, "kind = "@ + bind_text('$', 3));
    assert(tail.subrange(70, 79) =~= "name = "@ + bind_text('$', 4)) by {
        reveal_strlit("name = ");
    }
    lemma_has_text_at(tail, "name = "@ + bind_text('$', 4), 70);
    lemma_has_text_right(head + quoted(table), tail, "name = "@ + bind_text('$', 4));
}

/// The Postgres compare-and-swap over an expected value writes the new
/// value (bind 5) into the key's row only where it holds the expected one
/// (bind 6); without one it inserts the key and value only where no row is.
pub proof fn law_postgres_swap_writes_new_value(table: Seq<char>)
    requires
        accepted_table(table),
    ensures
        swaps_expected(postgres::pg_compare_and_swap_text(table, true), '$'),
        inserts_if_absent(postgres::pg_compare_and_swap_text(table, false), '$'),
{
    {
        reveal_strlit("UPDATE ");
        reveal_strlit(" SET value = $5\n             WHERE namespace = $1 AND parent_path = $2 AND kind = $3 AND name = $4 AND value = $6");
        let head = "UPDATE "@;
        let tail = " SET value = $5\n             WHERE namespace = $1 AND parent_path = $2 AND kind = $3 AND name = $4 AND value = $6"@;
        assert(strict_less_only(head) && strict_greater_only(head) && lacks_char(head, '<') && lacks_char(head, '>'));
        assert(strict_less_only(tail) && strict_greater_only(tail));
        assert(lacks_char(tail, '<'));
        assert(lacks_char(tail, '>'));
        lemma_around_table(head, table, tail);
        assert(tail.subrange(1, 15) =~= "SET value = "@ + bind_text('$', 5)) by {
            reveal_strlit("SET value = ");
        }
        lemma_has_text_at(tail, "SET value = "@ + bind_text('$', 5), 1);
        lemma_has_text_right(head + quoted(table), tail, "SET value = "@ + bind_text('$', 5));
        assert(tail.subrange(99, 113) =~= "AND value = "@ + bind_text('$', 6)) by {
            reveal_strlit("AND value = ");
        }
        lemma_has_text_at(tail, "AND value = "@ + bind_text('$', 6), 99);
        lemma_has_text_right(head + quoted(table), tail, "AND value = "@ + bind_text('$', 6));
        assert(tail.subrange(35, 49) =~= "namespace = "@ + bind_text('$', 1)) by {
            reveal_strlit("namespace = ");
        }
        lemma_has_text_at(tail, "namespace = "@ + bind_text('$', 1), 35);
        lemma_has_text_right(head + quoted(table), tail, "namespace = "@ + bind_text('$', 1));
        assert(tail.subrange(54, 70) =~= "parent_path = "@ + bind_text('$', 2)) by {
            reveal_strlit("parent_path = ");
        }
        lemma_has_text_at(tail, "parent_path = "@ + bind_text('$', 2), 54);
        lemma_has_text_right(head + quoted(table), tail, "parent_path = "@ + bind_text('$', 2));
        assert(tail.subrange(75, 84) =~= "kind = "@ + bind_text('$', 3)) by {
            reveal_strlit("kind = ");
        }
        lemma_has_text_at(tail, "kind = "@ + bind_text('$', 3), 75);
        lemma_has_text_right(head + quoted(table), tail, "kind = "@ + bind_text('$', 3));
        assert(tail.subrange(89, 98) =~= "name = "@ + bind_text('$', 4)) by {
            reveal_strlit("name = ");
        }
        lemma_has_text_at(tail, "name = "@ + bind_text('$', 4), 89);
        lemma_has_text_right(head + quoted(table), tail, "name = "@ + bind_text('$', 4));
    }
    {
        reveal_strlit("INSERT INTO ");
        reveal_strlit(" (namespace, parent_path, kind, name, value)\n             VALUES ($1, $2, $3, $4, $5)\n             ON CONFLICT (namespace, parent_path, kind, name) DO NOTHING");
        let head = "INSERT INTO "@;
        let tail = " (namespace, parent_path, kind, name, value)\n             VALUES ($1, $2, $3, $4, $5)\n             ON CONFLICT (namespace, parent_path, kind, name) DO NOTHING"@;
        assert(strict_less_only(head) && strict_greater_only(head) && lacks_char(head, '<') && lacks_char(head, '>'));
        assert(strict_less_only(tail) && strict_greater_only(tail));
        lemma_around_table(head, table, tail);
        assert(tail.subrange(58, 85) =~= "VALUES ("@ + bind_text('$', 1) + ", "@ + bind_text('$', 2) + ", "@ + bind_text('$', 3) + ", "@ + bind_text('$', 4) + ", "@ + bind_text('$', 5) + ")"@) by {
            reveal_strlit("VALUES (");
            reveal_strlit(", ");
            reveal_strlit(", ");
            reveal_strlit(", ");
            reveal_strlit(", ");
            reveal_strlit(")");
        }
        lemma_has_text_at(tail, "VALUES ("@ + bind_text('$', 1) + ", "@ + bind_text('$', 2) + ", "@ + bind_text('$', 3) + ", "@ + bind_text('$', 4) + ", "@ + bind_text('$', 5) + ")"@, 58);
        lemma_has_text_right(head + quoted(table), tail, "VALUES ("@ + bind_text('$', 1) + ", "@ + bind_text('$', 2) + ", "@ + bind_text('$', 3) + ", "@ + bind_text('$', 4) + ", "@ + bind_text('$', 5) + ")"@);
        assert(tail.subrange(148, 158) =~= "DO NOTHING"@) by {
            reveal_strlit("DO NOTHING");
        }
        lemma_has_text_at(tail, "DO NOTHING"@, 148);
        lemma_has_text_right(head + quoted(table), tail, "DO NOTHING"@);
    }
}

/// The Postgres page query of child keys selects names strictly below
/// the cursor (all names without one), last name first, at most the limit.
pub proof fn law_postgres_keys_page_strict(table: Seq<char>)
    requires
        accepted_table(table),
    ensures
        strict_page(postgres::pg_list_keys_page_text(table), '$'),
{
    reveal_strlit("SELECT namespace, parent_path, kind, name FROM ");
    reveal_strlit("\n         WHERE namespace = $1 AND parent_path = $2 AND kind = $3\n           AND ($4 IS NULL OR name < $4)\n         ORDER BY name DESC\n         LIMIT $5");
    let head = "SELECT namespace, parent_path, kind, name FROM "@;
    let tail = "\n         WHERE namespace = $1 AND parent_path = $2 AND kind = $3\n           AND ($4 IS NULL OR name < $4)\n         ORDER BY name DESC\n         LIMIT $5"@;
    assert(strict_less_only(head) && strict_greater_only(head) && lacks_char(head, '<') && lacks_char(head, '>'));
    assert(strict_less_only(tail) && strict_greater_only(tail));
    assert(lacks_char(tail, '>'));
    lemma_around_table(head, table, tail);
    assert(tail.subrange(56, 65) =~= "kind = "@ + bind_text('$', 3)) by {
        reveal_strlit("kind = ");
    }
    lemma_has_text_at(tail, "kind = "@ + bind_text('$', 3), 56);
    lemma_has_text_right(head + quoted(table), tail, "kind = "@ + bind_text('$', 3));
    assert(tail.subrange(81, 106) =~= "("@ + bind_text('$', 4) + " IS NULL OR name < "@ + bind_text('$', 4) + ")"@) by {
        reveal_strlit("(");
        reveal_strlit(" IS NULL OR name < ");
        reveal_strlit(")");
    }
    lemma_has_text_at(tail, "("@ + bind_text('$', 4) + " IS NULL OR name < "@ + bind_text('$', 4) + ")"@, 81);
    lemma_has_text_right(head + quoted(table), tail, "("@ + bind_text('$', 4) + " IS NULL OR name < "@ + bind_text('$', 4) + ")"@);
    assert(tail.subrange(116, 134) =~= "ORDER BY name DESC"@) by {
        reveal_strlit("ORDER BY name DESC");
    }
    lemma_has_text_at(tail, "ORDER BY name DESC"@, 116);
    lemma_has_text_right(head + quoted(table), tail, "ORDER BY name DESC"@);
    assert(tail.subrange(144, 152) =~= "LIMIT "@ + bind_text('$', 5)) by {
        reveal_strlit("LIMIT ");
    }
    lemma_has_text_at(tail, "LIMIT "@ + bind_text('$', 5), 144);
    lemma_has_text_right(head + quoted(table), tail, "LIMIT "@ + bind_text('$', 5));
}

/// The Postgres page query of child entries selects names strictly below
/// the cursor (all names without one), last name first, at most the limit.
pub proof fn law_postgres_entries_page_strict(table: Seq<char>)
    requires
        accepted_table(table),
    ensures
        strict_page(postgres::pg_list_entries_page_text(table), '$'),
{
    reveal_strlit("SELECT namespace, parent_path, kind, name, value FROM ");
    reveal_strlit("\n         WHERE namespace = $1 AND parent_path = $2 AND kind = $3\n           AND ($4 IS NULL OR name < $4)\n         ORDER BY name DESC\n         LIMIT $5");
    let head = "SELECT namespace, parent_path, kind, name, value FROM "@;
    let tail = "\n         WHERE namespace = $1 AND parent_path = $2 AND kind = $3\n           AND ($4 IS NULL OR name < $4)\n         ORDER BY name DESC\n         LIMIT $5"@;
    assert(strict_less_only(head) && strict_greater_only(head) && lacks_char(head, '<') && lacks_char(head, '>'));
    assert(strict_less_only(tail) && strict_greater_only(tail));
    assert(lacks_char(tail, '>'));
    lemma_around_table(head, table, tail);
    assert(tail.subrange(56, 65) =~= "kind = "@ + bind_text('$', 3)) by {
        reveal_strlit("kind = ");
    }
    lemma_has_text_at(tail, "kind = "@ + bind_text('$', 3), 56);
    lemma_has_text_right(head + quoted(table), tail, "kind = "@ + bind_text('$', 3));
    assert(tail.subrange(81, 106) =~= "("@ + bind_text('$', 4) + " IS NULL OR name < "@ + bind_text('$', 4) + ")"@) by {
        reveal_strlit("(");
        reveal_strlit(" IS NULL OR name < ");
        reveal_strlit(")");
    }
    lemma_has_text_at(tail, "("@ + bind_text('$', 4) + " IS NULL OR name < "@ + bind_text('$', 4) + ")"@, 81);
    lemma_has_text_right(head + quoted(table), tail, "("@ + bind_text('$', 4) + " IS NULL OR name < "@ + bind_text('$', 4) + ")"@);
    assert(tail.subrange(116, 134) =~= "ORDER BY name DESC"@) by {
        reveal_strlit("ORDER BY name DESC");
    }
    lemma_has_text_at(tail, "ORDER BY name DESC"@, 116);
    lemma_has_text_right(head + quoted(table), tail, "ORDER BY name DESC"@);
    assert(tail.subrange(144, 152) =~= "LIMIT "@ + bind_text('$', 5)) by {
        reveal_strlit("LIMIT ");
    }
    lemma_has_text_at(tail, "LIMIT "@ + bind_text('$', 5), 144);
    lemma_has_text_right(head + quoted(table), tail, "LIMIT "@ + bind_text('$', 5));
}

/// The SQLite (listing options) get statement reads the row of the given key and no other:
/// it equates each key column with its own bind and compares nothing by
/// order.
pub proof fn law_sqlite_sql_get_one_key(table: Seq<char>)
    requires
        accepted_table(table),
    ensures
        matches_one_key(sqlite_sql::sqlite_opts_get_text(table), '?'),
{
    reveal_strlit("SELECT value FROM ");
    reveal_strlit("\n         WHERE namespace = ?1 AND parent_path = ?2 AND kind = ?3 AND name = ?4");
    let head = "SELECT value FROM "@;
    let tail = "\n         WHERE namespace = ?1 AND parent_path = ?2 AND kind = ?3 AND name = ?4"@;
    assert(strict_less_only(head) && strict_greater_only(head) && lacks_char(head, '<') && lacks_char(head, '>'));
    assert(strict_less_only(tail) && strict_greater_only(tail));
    assert(lacks_char(tail, '<'));
    assert(lacks_char(tail, '>'));
    lemma_around_table(head, table, tail);
    assert(tail.subrange(16, 30) =~= "namespace = "@ + bind_text('?', 1)) by {
        reveal_strlit("namespace = ");
    }
    lemma_has_text_at(tail, "namespace = "@ + bind_text('?', 1), 16);
    lemma_has_text_right(head + quoted(table), tail, "namespace = "@ + bind_text('?', 1));
    assert(tail.subrange(35, 51) =~= "parent_path = "@ + bind_text('?', 2)) by {
        reveal_strlit("parent_path = ");
    }
    lemma_has_text_at(tail, "parent_path = "@ + bind_text('?', 2), 35);
    lemma_has_text_right(head + quoted(table), tail, "parent_path = "@ + bind_text('?', 2));
    assert(tail.subrange(56, 65) =~= "kind = "@ + bind_text('?', 3)) by {
        reveal_strlit("kind = ");
    }
    lemma_has_text_at(tail, "kind = "@ + bind_text('?', 3), 56);
    lemma_has_text_right(head + quoted(table), tail, "kind = "@ + bind_text('?', 3));
    assert(tail.subrange(70, 79) =~= "name = "@ + bind_text('?', 4)) by {
        reveal_strlit("name = ");
    }
    lemma_has_text_at(tail, "name = "@ + bind_text('?', 4), 70);
    lemma_has_text_right(head + quoted(table), tail, "name = "@ + bind_text('?', 4));
}

/// The SQLite (listing options) delete statement deletes the row of the given key and no other:
/// it equates each key column with its own bind and compares nothing by
/// order.
pub proof fn law_sqlite_sql_delete_one_key(table: Seq<char>)
    requires
        accepted_table(table),
    ensures
        matches_one_key(sqlite_sql::sqlite_opts_delete_text(table), '?'),
{
    reveal_strlit("DELETE FROM ");
    reveal_strlit("\n         WHERE namespace = ?1 AND parent_path = ?2 AND kind = ?3 AND name = ?4");
    let head = "DELETE FROM "@;
    let tail = "\n         WHERE namespace = ?1 AND parent_path = ?2 AND kind = ?3 AND name = ?4"@;
    assert(strict_less_only(head) && strict_greater_only(head) && lacks_char(head, '<') && lacks_char(head, '>'));
    assert(strict_less_only(tail) && strict_greater_only(tail));
    assert(lacks_char(tail, '<'));
    assert(lacks_char(tail, '>'));
    lemma_around_table(head, table, tail);
    assert(tail.subrange(16, 30) =~= "namespace = "@ + bind_text('?', 1)) by {
        reveal_strlit("namespace = ");
    }
    lemma_has_text_at(tail, "namespace = "@ + bind_text('?', 1), 16);
    lemma_has_text_right(head + quoted(table), tail, "namespace = "@ + bind_text('?', 1));
    assert(tail.subrange(35, 51) =~= "parent_path = "@ + bind_text('?', 2)) by {
        reveal_strlit("parent_path = ");
    }
    lemma_has_text_at(tail, "parent_path = "@ + bind_text('?', 2), 35);
    lemma_has_text_right(head + quoted(table), tail, "parent_path = "@ + bind_text('?', 2));
    assert(tail.subrange(56, 65) =~= "kind = "@ + bind_text('?', 3)) by {
        reveal_strlit("kind = ");
    }
    lemma_has_text_at(tail, "kind = "@ + bind_text('?', 3), 56);
    lemma_has_text_right(head + quoted(table), tail, "kind = "@ + bind_text('?', 3));
    assert(tail.subrange(70, 79) =~= "name = "@ + bind_text('?', 4)) by {
        reveal_strlit("name = ");
    }
    lemma_has_text_at(tail, "name = "@ + bind_text('?', 4), 70);
    lemma_has_text_right(head + quoted(table), tail, "name = "@ + bind_text('?', 4));
}

/// The SQLite (listing options) compare-and-swap over an expected value writes the new
/// value (bind 5) into the key's row only where it holds the expected one
/// (bind 6); without one it inserts the key and value only where no row is.
pub proof fn law_sqlite_sql_swap_writes_new_value(table: Seq<char>)
    requires
        accepted_table(table),
    ensures
        swaps_expected(sqlite_sql::sqlite_opts_compare_and_swap_text(table, true), '?'),
        inserts_if_absent(sqlite_sql::sqlite_opts_compare_and_swap_text(table, false), '?'),
{
    {
        reveal_strlit("UPDATE ");
        reveal_strlit(" SET value = ?5\n             WHERE namespace = ?1 AND parent_path = ?2 AND kind = ?3 AND name = ?4 AND value = ?6");
        let head = "UPDATE "@;
        let tail = " SET value = ?5\n             WHERE namespace = ?1 AND parent_path = ?2 AND kind = ?3 AND name = ?4 AND value = ?6"@;
        assert(strict_less_only(head) && strict_greater_only(head) && lacks_char(head, '<') && lacks_char(head, '>'));
        assert(strict_less_only(tail) && strict_greater_only(tail));
        assert(lacks_char(tail, '<'));
        assert(lacks_char(tail, '>'));
        lemma_around_table(head, table, tail);
        assert(tail.subrange(1, 15) =~= "SET value = "@ + bind_text('?', 5)) by {
            reveal_strlit("SET value = ");
        }
        lemma_has_text_at(tail, "SET value = "@ + bind_text('?', 5), 1);
        lemma_has_text_right(head + quoted(table), tail, "SET value = "@ + bind_text('?', 5));
        assert(tail.subrange(99, 113) =~= "AND value = "@ + bind_text('?', 6)) by {
            reveal_strlit("AND value = ");
        }
        lemma_has_text_at(tail, "AND value = "@ + bind_text('?', 6), 99);
        lemma_has_text_right(head + quoted(table), tail, "AND value = "@ + bind_text('?', 6));
        assert(tail.subrange(35, 49) =~= "namespace = "@ + bind_text('?', 1)) by {
            reveal_strlit("namespace = ");
        }
        lemma_has_text_at(tail, "namespace = "@ + bind_text('?', 1), 35);
        lemma_has_text_right(head + quoted(table), tail, "namespace = "@ + bind_text('?', 1));
        assert(tail.subrange(54, 70) =~= "parent_path = "@ + bind_text('?', 2)) by {
            reveal_strlit("parent_path = ");
        }
        lemma_has_text_at(tail, "parent_path = "@ + bind_text('?', 2), 54);
        lemma_has_text_right(head + quoted(table), tail, "parent_path = "@ + bind_text('?', 2));
        assert(tail.subrange(75, 84) =~= "kind = "@ + bind_text('?', 3)) by {
            reveal_strlit("kind = ");
        }
        lemma_has_text_at(tail, "kind = "@ + bind_text('?', 3), 75);
        lemma_has_text_right(head + quoted(table), tail, "kind = "@ + bind_text('?', 3));
        assert(tail.subrange(89, 98) =~= "name = "@ + bind_text('?', 4)) by {
            reveal_strlit("name = ");
        }
        lemma_has_text_at(tail, "name = "@ + bind_text('?', 4), 89);
        lemma_has_text_right(head + quoted(table), tail, "name = "@ + bind_text('?', 4));
    }
    {
        reveal_strlit("INSERT INTO ");
        reveal_strlit(" (namespace, parent_path, kind, name, value)\n             VALUES (?1, ?2, ?3, ?4, ?5)\n             ON CONFLICT (namespace, parent_path, kind, name) DO NOTHING");
        let head = "INSERT INTO "@;
        let tail = " (namespace, parent_path, kind, name, value)\n             VALUES (?1, ?2, ?3, ?4, ?5)\n             ON CONFLICT (namespace, parent_path, kind, name) DO NOTHING"@;
        assert(strict_less_only(head) && strict_greater_only(head) && lacks_char(head, '<') && lacks_char(head, '>'));
        assert(strict_less_only(tail) && strict_greater_only(tail));
        lemma_around_table(head, table, tail);
        assert(tail.subrange(58, 85) =~= "VALUES ("@ + bind_text('?', 1) + ", "@ + bind_text('?', 2) + ", "@ + bind_text('?', 3) + ", "@ + bind_text('?', 4) + ", "@ + bind_text('?', 5) + ")"@) by {
            reveal_strlit("VALUES (");
            reveal_strlit(", ");
            reveal_strlit(", ");
            reveal_strlit(", ");
            reveal_strlit(", ");
            reveal_strlit(")");
        }
        lemma_has_text_at(tail, "VALUES ("@ + bind_text('?', 1) + ", "@ + bind_text('?', 2) + ", "@ + bind_text('?', 3) + ", "@ + bind_text('?', 4) + ", "@ + bind_text('?', 5) + ")"@, 58);
        lemma_has_text_right(head + quoted(table), tail, "VALUES ("@ + bind_text('?', 1) + ", "@ + bind_text('?', 2) + ", "@ + bind_text('?', 3) + ", "@ + bind_text('?', 4) + ", "@ + bind_text('?', 5) + ")"@);
        assert(tail.subrange(148, 158) =~= "DO NOTHING"@) by {
            reveal_strlit("DO NOTHING");
        }
        lemma_has_text_at(tail, "DO NOTHING"@, 148);
        lemma_has_text_right(head + quoted(table), tail, "DO NOTHING"@);
    }
}


// ---------------------------------------------------------------------------
// Listing cursors

proof fn lemma_join_has(parts: Seq<Seq<char>>, k: int, p: Seq<char>)
    requires
        0 <= k < parts.len(),
        has_text(parts[k], p),
    ensures
        has_text(join_space(parts), p),
    decreases parts.len(),
{
    if parts.len() > 1 {
        let front = parts.drop_last();
        if k < parts.len() - 1 {
            assert(front[k] == parts[k]);
            lemma_join_has(front, k, p);
            lemma_has_text_left(join_space(front), seq![' '], p);
            lemma_has_text_left(join_space(front) + seq![' '], parts.last(), p);
        } else {
            lemma_has_text_right(join_space(front) + seq![' '], parts.last(), p);
        }
    }
}

proof fn lemma_join_lacks(parts: Seq<Seq<char>>, c: char)
    requires
        c != ' ',
        forall|k: int| 0 <= k < parts.len() ==> lacks_char(#[trigger] parts[k], c),
    ensures
        lacks_char(join_space(parts), c),
    decreases parts.len(),
{
    if parts.len() == 1 {
        assert(lacks_char(parts[0], c));
    } else if parts.len() > 1 {
        let front = parts.drop_last();
        assert forall|k: int| 0 <= k < front.len() implies lacks_char(#[trigger] front[k], c) by {
            assert(front[k] == parts[k]);
        }
        lemma_join_lacks(front, c);
        assert(lacks_char(parts[parts.len() - 1], c));
        lemma_lacks_add(join_space(front), seq![' '], c);
        lemma_lacks_add(join_space(front) + seq![' '], parts.last(), c);
    }
}

proof fn lemma_join_strict(parts: Seq<Seq<char>>)
    requires
        forall|k: int|
            0 <= k < parts.len() ==> strict_less_only(#[trigger] parts[k]) && strict_greater_only(parts[k]),
    ensures
        strict_less_only(join_space(parts)),
        strict_greater_only(join_space(parts)),
    decreases parts.len(),
{
    if parts.len() == 1 {
        assert(strict_less_only(parts[0]));
    } else if parts.len() > 1 {
        let front = parts.drop_last();
        assert forall|k: int| 0 <= k < front.len() implies strict_less_only(#[trigger] front[k])
            && strict_greater_only(front[k]) by {
            assert(front[k] == parts[k]);
        }
        lemma_join_strict(front);
        assert(strict_less_only(parts[parts.len() - 1]));
        lemma_strict_add(join_space(front), seq![' ']);
        lemma_strict_add(join_space(front) + seq![' '], parts.last());
    }
}

/// A condition `head` then a placeholder: its facts.
proof fn lemma_condition(head: Seq<char>, sigil: char, n: u8)
    requires
        sigil == '?' || sigil == '$',
        n < 10,
        strict_less_only(head),
        strict_greater_only(head),
    ensures
        has_text(head + bind_text(sigil, n), head + bind_text(sigil, n)),
        strict_less_only(head + bind_text(sigil, n)),
        strict_greater_only(head + bind_text(sigil, n)),
        lacks_char(head, '<') ==> lacks_char(head + bind_text(sigil, n), '<'),
        lacks_char(head, '>') ==> lacks_char(head + bind_text(sigil, n), '>'),
{
    let b = bind_text(sigil, n);
    let t = head + b;
    assert(t.subrange(0, t.len() as int) =~= t);
    lemma_has_text_at(t, t, 0);
    assert(((48 + n) as u8) == 48 + n);
    assert(((48 + n) as u8) as char != '<' && ((48 + n) as u8) as char != '>');
    assert(lacks_char(b, '<') && lacks_char(b, '>'));
    lemma_strict_add(head, b);
    if lacks_char(head, '<') {
        lemma_lacks_add(head, b, '<');
    }
    if lacks_char(head, '>') {
        lemma_lacks_add(head, b, '>');
    }
}

proof fn lemma_condition_heads()
    ensures
        strict_less_only("AND kind = "@) && strict_greater_only("AND kind = "@),
        lacks_char("AND kind = "@, '<') && lacks_char("AND kind = "@, '>'),
        strict_less_only("AND name < "@) && strict_greater_only("AND name < "@),
        lacks_char("AND name < "@, '>'),
        strict_less_only("AND name > "@) && strict_greater_only("AND name > "@),
        lacks_char("AND name > "@, '<'),
{
    reveal_strlit("AND kind = ");
    reveal_strlit("AND name < ");
    reveal_strlit("AND name > ");
}

/// The filter of a listing compares names with the before-cursor's bind by
/// strict `<` exactly when there is a before-cursor, and with the
/// after-cursor's bind by strict `>` exactly when there is an after-cursor.
#[verifier::rlimit(50)]
#[verifier::spinoff_prover]
pub proof fn law_filter_cursors(has_kind: bool, options: ListOptions, sigil: char)
    requires
        sigil == '?' || sigil == '$',
    ensures
        cursor_conditions(filter_text(has_kind, options, sigil), has_kind, options, sigil),
{
    lemma_condition_heads();
    let first = first_free_bind(has_kind);
    let after: u8 = if options.before_name is Some {
        (first + 1) as u8
    } else {
        first
    };
    let kind_c = "AND kind = "@ + bind_text(sigil, 3);
    let before_c = "AND name < "@ + bind_text(sigil, first);
    let after_c = "AND name > "@ + bind_text(sigil, after);
    lemma_condition("AND kind = "@, sigil, 3);
    lemma_condition("AND name < "@, sigil, first);
    lemma_condition("AND name > "@, sigil, after);
    let parts = filter_parts(has_kind, options, sigil);
    let t = join_space(parts);
    let kind_part: Seq<Seq<char>> = if has_kind {
        seq![kind_c]
    } else {
        seq![]
    };
    let before_part: Seq<Seq<char>> = if options.before_name is Some {
        seq![before_c]
    } else {
        seq![]
    };
    let after_part: Seq<Seq<char>> = if options.after_name is Some {
        seq![after_c]
    } else {
        seq![]
    };
    assert(parts =~= kind_part + before_part + after_part);
    assert forall|k: int| 0 <= k < parts.len() implies strict_less_only(#[trigger] parts[k])
        && strict_greater_only(parts[k]) by {
        assert(parts[k] == kind_c || parts[k] == before_c || parts[k] == after_c);
    }
    lemma_join_strict(parts);
    if options.before_name is Some {
        let k = kind_part.len() as int;
        assert(parts[k] == before_c);
        lemma_join_has(parts, k, before_c);
    } else {
        assert forall|k: int| 0 <= k < parts.len() implies lacks_char(#[trigger] parts[k], '<') by {
            assert(parts[k] == kind_c || parts[k] == after_c);
        }
        lemma_join_lacks(parts, '<');
    }
    if options.after_name is Some {
        let k = (kind_part.len() + before_part.len()) as int;
        assert(parts[k] == after_c);
        lemma_join_has(parts, k, after_c);
    } else {
        assert forall|k: int| 0 <= k < parts.len() implies lacks_char(#[trigger] parts[k], '>') by {
            assert(parts[k] == kind_c || parts[k] == before_c);
        }
        lemma_join_lacks(parts, '>');
    }
}


/// Text without comparison signs.
pub open spec fn plain(s: Seq<char>) -> bool {
    lacks_char(s, '<') && lacks_char(s, '>')
}

proof fn lemma_plain_add(a: Seq<char>, b: Seq<char>)
    requires
        plain(a),
        plain(b),
    ensures
        plain(a + b),
{
    lemma_lacks_add(a, b, '<');
    lemma_lacks_add(a, b, '>');
}

/// A listing's filter between plain text keeps its cursor conditions.
proof fn lemma_wrapped_filter(pre: Seq<char>, f: Seq<char>, post: Seq<char>, has_kind: bool, options: ListOptions, sigil: char)
    requires
        plain(pre),
        plain(post),
        cursor_conditions(f, has_kind, options, sigil),
    ensures
        cursor_conditions(pre + f + post, has_kind, options, sigil),
{
    let t = pre + f + post;
    lemma_lacks_strict(pre);
    lemma_lacks_strict(post);
    lemma_strict_add(pre, f);
    lemma_strict_add(pre + f, post);
    let first = first_free_bind(has_kind);
    let after = if options.before_name is Some {
        (first + 1) as u8
    } else {
        first
    };
    if options.before_name is Some {
        let p = "AND name < "@ + bind_text(sigil, first);
        lemma_has_text_right(pre, f, p);
        lemma_has_text_left(pre + f, post, p);
    } else {
        lemma_lacks_add(pre, f, '<');
        lemma_lacks_add(pre + f, post, '<');
    }
    if options.after_name is Some {
        let p = "AND name > "@ + bind_text(sigil, after);
        lemma_has_text_right(pre, f, p);
        lemma_has_text_left(pre + f, post, p);
    } else {
        lemma_lacks_add(pre, f, '>');
        lemma_lacks_add(pre + f, post, '>');
    }
}

/// The order and limit clauses hold no comparison sign.
proof fn lemma_order_limit_plain(order_head: Seq<char>, name_head: Seq<char>, has_kind: bool, options: ListOptions, sigil: char)
    requires
        sigil == '?' || sigil == '$',
        plain(order_head),
        plain(name_head),
    ensures
        plain(order_head + order_text(options.order) + name_head + order_text(options.order) + limit_text(
            has_kind,
            options,
            sigil,
        )),
{
    reveal_strlit("ASC");
    reveal_strlit("DESC");
    reveal_strlit(" LIMIT ");
    assert(plain(order_text(options.order)));
    let n = first_free_bind(has_kind) + (if options.before_name is Some {
        1u8
    } else {
        0u8
    }) + (if options.after_name is Some {
        1u8
    } else {
        0u8
    });
    assert(strict_less_only(" LIMIT "@) && strict_greater_only(" LIMIT "@) && plain(" LIMIT "@));
    lemma_condition(" LIMIT "@, sigil, n as u8);
    assert(plain(limit_text(has_kind, options, sigil)));
    lemma_plain_add(order_head, order_text(options.order));
    lemma_plain_add(order_head + order_text(options.order), name_head);
    lemma_plain_add(order_head + order_text(options.order) + name_head, order_text(options.order));
    lemma_plain_add(
        order_head + order_text(options.order) + name_head + order_text(options.order),
        limit_text(has_kind, options, sigil),
    );
}

/// The Postgres listing of child keys keeps only names strictly below
/// the before-cursor when there is one and strictly above the after-cursor
/// when there is one, and compares names otherwise not at all.
#[verifier::rlimit(40)]
pub proof fn law_postgres_list_keys_cursors(table: Seq<char>, has_kind: bool, options: ListOptions)
    requires
        accepted_table(table),
    ensures
        cursor_conditions(postgres::pg_list_keys_query_text(table, has_kind, options), has_kind, options, '$'),
{
    reveal_strlit("SELECT namespace, parent_path, kind, name FROM ");
    reveal_strlit("\n         WHERE namespace = $1 AND parent_path = $2 ");
    reveal_strlit("\n         ORDER BY kind ");
    reveal_strlit(", name ");
    let head = "SELECT namespace, parent_path, kind, name FROM "@;
    let mid = "\n         WHERE namespace = $1 AND parent_path = $2 "@;
    assert(plain(head) && plain(mid));
    lemma_lacks_strict(head);
    lemma_lacks_strict(mid);
    lemma_around_table(head, table, mid);
    assert(plain("\n         ORDER BY kind "@) && plain(", name "@));
    lemma_order_limit_plain("\n         ORDER BY kind "@, ", name "@, has_kind, options, '$');
    law_filter_cursors(has_kind, options, '$');
    let pre = head + quoted(table) + mid;
    let f = filter_text(has_kind, options, '$');
    let post = "\n         ORDER BY kind "@ + order_text(options.order) + ", name "@ + order_text(options.order)
        + limit_text(has_kind, options, '$');
    lemma_wrapped_filter(pre, f, post, has_kind, options, '$');
    assert(postgres::pg_list_keys_query_text(table, has_kind, options) =~= pre + f + post);
}

/// The Postgres listing of child entries keeps only names strictly below
/// the before-cursor when there is one and strictly above the after-cursor
/// when there is one, and compares names otherwise not at all.
#[verifier::rlimit(40)]
pub proof fn law_postgres_list_entries_cursors(table: Seq<char>, has_kind: bool, options: ListOptions)
    requires
        accepted_table(table),
    ensures
        cursor_conditions(postgres::pg_list_entries_query_text(table, has_kind, options), has_kind, options, '$'),
{
    reveal_strlit("SELECT namespace, parent_path, kind, name, value FROM ");
    reveal_strlit("\n         WHERE namespace = $1 AND parent_path = $2 ");
    reveal_strlit("\n         ORDER BY kind ");
    reveal_strlit(", name ");
    let head = "SELECT namespace, parent_path, kind, name, value FROM "@;
    let mid = "\n         WHERE namespace = $1 AND parent_path = $2 "@;
    assert(plain(head) && plain(mid));
    lemma_lacks_strict(head);
    lemma_lacks_strict(mid);
    lemma_around_table(head, table, mid);
    assert(plain("\n         ORDER BY kind "@) && plain(", name "@));
    lemma_order_limit_plain("\n         ORDER BY kind "@, ", name "@, has_kind, options, '$');
    law_filter_cursors(has_kind, options, '$');
    let pre = head + quoted(table) + mid;
    let f = filter_text(has_kind, options, '$');
    let post = "\n         ORDER BY kind "@ + order_text(options.order) + ", name "@ + order_text(options.order)
        + limit_text(has_kind, options, '$');
    lemma_wrapped_filter(pre, f, post, has_kind, options, '$');
    assert(postgres::pg_list_entries_query_text(table, has_kind, options) =~= pre + f + post);
}

/// The SQLite listing of child keys keeps only names strictly below
/// the before-cursor when there is one and strictly above the after-cursor
/// when there is one, and compares names otherwise not at all.
#[verifier::rlimit(40)]
pub proof fn law_sqlite_sql_list_keys_cursors(table: Seq<char>, has_kind: bool, options: ListOptions)
    requires
        accepted_table(table),
    ensures
        cursor_conditions(sqlite_sql::sqlite_opts_list_keys_query_text(table, has_kind, options), has_kind, options, '?'),
{
    reveal_strlit("SELECT namespace, parent_path, kind, name FROM ");
    reveal_strlit("\n         WHERE namespace = ?1 AND parent_path = ?2 ");
    reveal_strlit("\n         ORDER BY kind ");
    reveal_strlit(", name ");
    let head = "SELECT namespace, parent_path, kind, name FROM "@;
    let mid = "\n         WHERE namespace = ?1 AND parent_path = ?2 "@;
    assert(plain(head) && plain(mid));
    lemma_lacks_strict(head);
    lemma_lacks_strict(mid);
    lemma_around_table(head, table, mid);
    assert(plain("\n         ORDER BY kind "@) && plain(", name "@));
    lemma_order_limit_plain("\n         ORDER BY kind "@, ", name "@, has_kind, options, '?');
    law_filter_cursors(has_kind, options, '?');
    let pre = head + quoted(table) + mid;
    let f = filter_text(has_kind, options, '?');
    let post = "\n         ORDER BY kind "@ + order_text(options.order) + ", name "@ + order_text(options.order)
        + limit_text(has_kind, options, '?');
    lemma_wrapped_filter(pre, f, post, has_kind, options, '?');
    assert(sqlite_sql::sqlite_opts_list_keys_query_text(table, has_kind, options) =~= pre + f + post);
}

/// The SQLite listing of child entries keeps only names strictly below
/// the before-cursor when there is one and strictly above the after-cursor
/// when there is one, and compares names otherwise not at all.
#[verifier::rlimit(40)]
pub proof fn law_sqlite_sql_list_entries_cursors(table: Seq<char>, has_kind: bool, options: ListOptions)
    requires
        accepted_table(table),
    ensures
        cursor_conditions(sqlite_sql::sqlite_opts_list_entries_query_text(table, has_kind, options), has_kind, options, '?'),
{
    reveal_strlit("SELECT namespace, parent_path, kind, name, value FROM ");
    reveal_strlit("\n         WHERE namespace = ?1 AND parent_path = ?2 ");
    reveal_strlit("\n         ORDER BY kind ");
    reveal_strlit(", name ");
    let head = "SELECT namespace, parent_path, kind, name, value FROM "@;
    let mid = "\n         WHERE namespace = ?1 AND parent_path = ?2 "@;
    assert(plain(head) && plain(mid));
    lemma_lacks_strict(head);
    lemma_lacks_strict(mid);
    lemma_around_table(head, table, mid);
    assert(plain("\n         ORDER BY kind "@) && plain(", name "@));
    lemma_order_limit_plain("\n         ORDER BY kind "@, ", name "@, has_kind, options, '?');
    law_filter_cursors(has_kind, options, '?');
    let pre = head + quoted(table) + mid;
    let f = filter_text(has_kind, options, '?');
    let post = "\n         ORDER BY kind "@ + order_text(options.order) + ", name "@ + order_text(options.order)
        + limit_text(has_kind, options, '?');
    lemma_wrapped_filter(pre, f, post, has_kind, options, '?');
    assert(sqlite_sql::sqlite_opts_list_entries_query_text(table, has_kind, options) =~= pre + f + post);
}


/// A write of the new value (bind 5) under the key's binds (1 to 4) that
/// replaces the value of an existing row of that key; it compares nothing.
pub open spec fn upserts(t: Seq<char>, sigil: char) -> bool {
    &&& has_text(
        t,
        "VALUES ("@ + bind_text(sigil, 1) + ", "@ + bind_text(sigil, 2) + ", "@ + bind_text(sigil, 3)
            + ", "@ + bind_text(sigil, 4) + ", "@ + bind_text(sigil, 5) + ")"@,
    )
    &&& has_text(t, "ON CONFLICT (namespace, parent_path, kind, name)"@)
    &&& has_text(t, "DO UPDATE SET value = excluded.value"@)
    &&& lacks_char(t, '<')
    &&& lacks_char(t, '>')
}

/// The statement of `sqlite::sqlite_set_text` stores the new value under
/// the key, replacing the value of an existing row of that key.
pub proof fn law_sqlite_set_upserts(table: Seq<char>)
    requires
        accepted_table(table),
    ensures
        upserts(sqlite::sqlite_set_text(table), '?'),
{
    reveal_strlit("INSERT INTO ");
    reveal_strlit(" (namespace, parent_path, kind, name, value)\n             VALUES (?1, ?2, ?3, ?4, ?5)\n             ON CONFLICT (namespace, parent_path, kind, name)\n             DO UPDATE SET value = excluded.value");
    let head = "INSERT INTO "@;
    let tail = " (namespace, parent_path, kind, name, value)\n             VALUES (?1, ?2, ?3, ?4, ?5)\n             ON CONFLICT (namespace, parent_path, kind, name)\n             DO UPDATE SET value = excluded.value"@;
    assert(strict_less_only(head) && strict_greater_only(head) && lacks_char(head, '<') && lacks_char(head, '>'));
    assert(strict_less_only(tail) && strict_greater_only(tail));
    assert(lacks_char(tail, '<'));
    assert(lacks_char(tail, '>'));
    lemma_around_table(head, table, tail);
    assert(tail.subrange(58, 85) =~= "VALUES ("@ + bind_text('?', 1) + ", "@ + bind_text('?', 2) + ", "@ + bind_text('?', 3) + ", "@ + bind_text('?', 4) + ", "@ + bind_text('?', 5) + ")"@) by {
        reveal_strlit("VALUES (");
        reveal_strlit(", ");
        reveal_strlit(", ");
        reveal_strlit(", ");
        reveal_strlit(", ");
        reveal_strlit(")");
    }
    lemma_has_text_at(tail, "VALUES ("@ + bind_text('?', 1) + ", "@ + bind_text('?', 2) + ", "@ + bind_text('?', 3) + ", "@ + bind_text('?', 4) + ", "@ + bind_text('?', 5) + ")"@, 58);
    lemma_has_text_right(head + quoted(table), tail, "VALUES ("@ + bind_text('?', 1) + ", "@ + bind_text('?', 2) + ", "@ + bind_text('?', 3) + ", "@ + bind_text('?', 4) + ", "@ + bind_text('?', 5) + ")"@);
    assert(tail.subrange(99, 147) =~= "ON CONFLICT (namespace, parent_path, kind, name)"@) by {
        reveal_strlit("ON CONFLICT (namespace, parent_path, kind, name)");
    }
    lemma_has_text_at(tail, "ON CONFLICT (namespace, parent_path, kind, name)"@, 99);
    lemma_has_text_right(head + quoted(table), tail, "ON CONFLICT (namespace, parent_path, kind, name)"@);
    assert(tail.subrange(161, 197) =~= "DO UPDATE SET value = excluded.value"@) by {
        reveal_strlit("DO UPDATE SET value = excluded.value");
    }
    lemma_has_text_at(tail, "DO UPDATE SET value = excluded.value"@, 161);
    lemma_has_text_right(head + quoted(table), tail, "DO UPDATE SET value = excluded.value"@);
}

/// The statement of `postgres::pg_set_text` stores the new value under
/// the key, replacing the value of an existing row of that key.
pub proof fn law_postgres_set_upserts(table: Seq<char>)
    requires
        accepted_table(table),
    ensures
        upserts(postgres::pg_set_text(table), '$'),
{
    reveal_strlit("INSERT INTO ");
    reveal_strlit(" (namespace, parent_path, kind, name, value)\n             VALUES ($1, $2, $3, $4, $5)\n             ON CONFLICT (namespace, parent_path, kind, name)\n             DO UPDATE SET value = excluded.value");
    let head = "INSERT INTO "@;
    let tail = " (namespace, parent_path, kind, name, value)\n             VALUES ($1, $2, $3, $4, $5)\n             ON CONFLICT (namespace, parent_path, kind, name)\n             DO UPDATE SET value = excluded.value"@;
    assert(strict_less_only(head) && strict_greater_only(head) && lacks_char(head, '<') && lacks_char(head, '>'));
    assert(strict_less_only(tail) && strict_greater_only(tail));
    assert(lacks_char(tail, '<'));
    assert(lacks_char(tail, '>'));
    lemma_around_table(head, table, tail);
    assert(tail.subrange(58, 85) =~= "VALUES ("@ + bind_text('$', 1) + ", "@ + bind_text('$', 2) + ", "@ + bind_text('$', 3) + ", "@ + bind_text('$', 4) + ", "@ + bind_text('$', 5) + ")"@) by {
        reveal_strlit("VALUES (");
        reveal_strlit(", ");
        reveal_strlit(", ");
        reveal_strlit(", ");
        reveal_strlit(", ");
        reveal_strlit(")");
    }
    lemma_has_text_at(tail, "VALUES ("@ + bind_text('$', 1) + ", "@ + bind_text('$', 2) + ", "@ + bind_text('$', 3) + ", "@ + bind_text('$', 4) + ", "@ + bind_text('$', 5) + ")"@, 58);
    lemma_has_text_right(head + quoted(table), tail, "VALUES ("@ + bind_text('$', 1) + ", "@ + bind_text('$', 2) + ", "@ + bind_text('$', 3) + ", "@ + bind_text('$', 4) + ", "@ + bind_text('$', 5) + ")"@);
    assert(tail.subrange(99, 147) =~= "ON CONFLICT (namespace, parent_path, kind, name)"@) by {
        reveal_strlit("ON CONFLICT (namespace, parent_path, kind, name)");
    }
    lemma_has_text_at(tail, "ON CONFLICT (namespace, parent_path, kind, name)"@, 99);
    lemma_has_text_right(head + quoted(table), tail, "ON CONFLICT (namespace, parent_path, kind, name)"@);
    assert(tail.subrange(161, 197) =~= "DO UPDATE SET value = excluded.value"@) by {
        reveal_strlit("DO UPDATE SET value = excluded.value");
    }
    lemma_has_text_at(tail, "DO UPDATE SET value = excluded.value"@, 161);
    lemma_has_text_right(head + quoted(table), tail, "DO UPDATE SET value = excluded.value"@);
}

/// The statement of `sqlite_sql::sqlite_opts_set_text` stores the new value under
/// the key, replacing the value of an existing row of that key.
pub proof fn law_sqlite_sql_set_upserts(table: Seq<char>)
    requires
        accepted_table(table),
    ensures
        upserts(sqlite_sql::sqlite_opts_set_text(table), '?'),
{
    reveal_strlit("INSERT INTO ");
    reveal_strlit(" (namespace, parent_path, kind, name, value)\n             VALUES (?1, ?2, ?3, ?4, ?5)\n             ON CONFLICT (namespace, parent_path, kind, name)\n             DO UPDATE SET value = excluded.value");
    let head = "INSERT INTO "@;
    let tail = " (namespace, parent_path, kind, name, value)\n             VALUES (?1, ?2, ?3, ?4, ?5)\n             ON CONFLICT (namespace, parent_path, kind, name)\n             DO UPDATE SET value = excluded.value"@;
    assert(strict_less_only(head) && strict_greater_only(head) && lacks_char(head, '<') && lacks_char(head, '>'));
    assert(strict_less_only(tail) && strict_greater_only(tail));
    assert(lacks_char(tail, '<'));
    assert(lacks_char(tail, '>'));
    lemma_around_table(head, table, tail);
    assert(tail.subrange(58, 85) =~= "VALUES ("@ + bind_text('?', 1) + ", "@ + bind_text('?', 2) + ", "@ + bind_text('?', 3) + ", "@ + bind_text('?', 4) + ", "@ + bind_text('?', 5) + ")"@) by {
        reveal_strlit("VALUES (");
        reveal_strlit(", ");
        reveal_strlit(", ");
        reveal_strlit(", ");
        reveal_strlit(", ");
        reveal_strlit(")");
    }
    lemma_has_text_at(tail, "VALUES ("@ + bind_text('?', 1) + ", "@ + bind_text('?', 2) + ", "@ + bind_text('?', 3) + ", "@ + bind_text('?', 4) + ", "@ + bind_text('?', 5) + ")"@, 58);
    lemma_has_text_right(head + quoted(table), tail, "VALUES ("@ + bind_text('?', 1) + ", "@ + bind_text('?', 2) + ", "@ + bind_text('?', 3) + ", "@ + bind_text('?', 4) + ", "@ + bind_text('?', 5) + ")"@);
    assert(tail.subrange(99, 147) =~= "ON CONFLICT (namespace, parent_path, kind, name)"@) by {
        reveal_strlit("ON CONFLICT (namespace, parent_path, kind, name)");
    }
    lemma_has_text_at(tail, "ON CONFLICT (namespace, parent_path, kind, name)"@, 99);
    lemma_has_text_right(head + quoted(table), tail, "ON CONFLICT (namespace, parent_path, kind, name)"@);
    assert(tail.subrange(161, 197) =~= "DO UPDATE SET value = excluded.value"@) by {
        reveal_strlit("DO UPDATE SET value = excluded.value");
    }
    lemma_has_text_at(tail, "DO UPDATE SET value = excluded.value"@, 161);
    lemma_has_text_right(head + quoted(table), tail, "DO UPDATE SET value = excluded.value"@);
}

/// The statement of `postgres::pg_insert_text` stores the new value under
/// the key, replacing the value of an existing row of that key.
pub proof fn law_postgres_insert_upserts(table: Seq<char>)
    requires
        accepted_table(table),
    ensures
        upserts(postgres::pg_insert_text(table), '$'),
{
    reveal_strlit("INSERT INTO ");
    reveal_strlit(" (namespace, parent_path, kind, name, value)\n         VALUES ($1, $2, $3, $4, $5)\n         ON CONFLICT (namespace, parent_path, kind, name)\n         DO UPDATE SET value = excluded.value");
    let head = "INSERT INTO "@;
    let tail = " (namespace, parent_path, kind, name, value)\n         VALUES ($1, $2, $3, $4, $5)\n         ON CONFLICT (namespace, parent_path, kind, name)\n         DO UPDATE SET value = excluded.value"@;
    assert(strict_less_only(head) && strict_greater_only(head) && lacks_char(head, '<') && lacks_char(head, '>'));
    assert(strict_less_only(tail) && strict_greater_only(tail));
    assert(lacks_char(tail, '<'));
    assert(lacks_char(tail, '>'));
    lemma_around_table(head, table, tail);
    assert(tail.subrange(54, 81) =~= "VALUES ("@ + bind_text('$', 1) + ", "@ + bind_text('$', 2) + ", "@ + bind_text('$', 3) + ", "@ + bind_text('$', 4) + ", "@ + bind_text('$', 5) + ")"@) by {
        reveal_strlit("VALUES (");
        reveal_strlit(", ");
        reveal_strlit(", ");
        reveal_strlit(", ");
        reveal_strlit(", ");
        reveal_strlit(")");
    }
    lemma_has_text_at(tail, "VALUES ("@ + bind_text('$', 1) + ", "@ + bind_text('$', 2) + ", "@ + bind_text('$', 3) + ", "@ + bind_text('$', 4) + ", "@ + bind_text('$', 5) + ")"@, 54);
    lemma_has_text_right(head + quoted(table), tail, "VALUES ("@ + bind_text('$', 1) + ", "@ + bind_text('$', 2) + ", "@ + bind_text('$', 3) + ", "@ + bind_text('$', 4) + ", "@ + bind_text('$', 5) + ")"@);
    assert(tail.subrange(91, 139) =~= "ON CONFLICT (namespace, parent_path, kind, name)"@) by {
        reveal_strlit("ON CONFLICT (namespace, parent_path, kind, name)");
    }
    lemma_has_text_at(tail, "ON CONFLICT (namespace, parent_path, kind, name)"@, 91);
    lemma_has_text_right(head + quoted(table), tail, "ON CONFLICT (namespace, parent_path, kind, name)"@);
    assert(tail.subrange(149, 185) =~= "DO UPDATE SET value = excluded.value"@) by {
        reveal_strlit("DO UPDATE SET value = excluded.value");
    }
    lemma_has_text_at(tail, "DO UPDATE SET value = excluded.value"@, 149);
    lemma_has_text_right(head + quoted(table), tail, "DO UPDATE SET value = excluded.value"@);
}


/// A store table: the four key columns, none of them null, form its
/// primary key, so one key holds at most one row.
pub open spec fn keyed_by_resource_key(t: Seq<char>) -> bool {
    &&& has_text(t, "namespace TEXT NOT NULL"@)
    &&& has_text(t, "parent_path TEXT NOT NULL"@)
    &&& has_text(t, "kind TEXT NOT NULL"@)
    &&& has_text(t, "name TEXT NOT NULL"@)
    &&& has_text(t, "PRIMARY KEY (namespace, parent_path, kind, name)"@)
}

/// The table that `sqlite::sqlite_create_table_text` creates is keyed by the resource key.
pub proof fn law_sqlite_create_table_keyed(table: Seq<char>)
    ensures
        keyed_by_resource_key(sqlite::sqlite_create_table_text(table)),
{
    reveal_strlit("CREATE TABLE IF NOT EXISTS ");
    reveal_strlit(" (\n                namespace TEXT NOT NULL,\n                parent_path TEXT NOT NULL,\n                kind TEXT NOT NULL,\n                name TEXT NOT NULL,\n                value BLOB NOT NULL,\n                PRIMARY KEY (namespace, parent_path, kind, name)\n            ) WITHOUT ROWID");
    let head = "CREATE TABLE IF NOT EXISTS "@;
    let tail = " (\n                namespace TEXT NOT NULL,\n                parent_path TEXT NOT NULL,\n                kind TEXT NOT NULL,\n                name TEXT NOT NULL,\n                value BLOB NOT NULL,\n                PRIMARY KEY (namespace, parent_path, kind, name)\n            ) WITHOUT ROWID"@;
    assert(tail.subrange(19, 42) =~= "namespace TEXT NOT NULL"@) by {
        reveal_strlit("namespace TEXT NOT NULL");
    }
    lemma_has_text_at(tail, "namespace TEXT NOT NULL"@, 19);
    lemma_has_text_right(head + quoted(table), tail, "namespace TEXT NOT NULL"@);
    assert(tail.subrange(60, 85) =~= "parent_path TEXT NOT NULL"@) by {
        reveal_strlit("parent_path TEXT NOT NULL");
    }
    lemma_has_text_at(tail, "parent_path TEXT NOT NULL"@, 60);
    lemma_has_text_right(head + quoted(table), tail, "parent_path TEXT NOT NULL"@);
    assert(tail.subrange(103, 121) =~= "kind TEXT NOT NULL"@) by {
        reveal_strlit("kind TEXT NOT NULL");
    }
    lemma_has_text_at(tail, "kind TEXT NOT NULL"@, 103);
    lemma_has_text_right(head + quoted(table), tail, "kind TEXT NOT NULL"@);
    assert(tail.subrange(139, 157) =~= "name TEXT NOT NULL"@) by {
        reveal_strlit("name TEXT NOT NULL");
    }
    lemma_has_text_at(tail, "name TEXT NOT NULL"@, 139);
    lemma_has_text_right(head + quoted(table), tail, "name TEXT NOT NULL"@);
    assert(tail.subrange(212, 260) =~= "PRIMARY KEY (namespace, parent_path, kind, name)"@) by {
        reveal_strlit("PRIMARY KEY (namespace, parent_path, kind, name)");
    }
    lemma_has_text_at(tail, "PRIMARY KEY (namespace, parent_path, kind, name)"@, 212);
    lemma_has_text_right(head + quoted(table), tail, "PRIMARY KEY (namespace, parent_path, kind, name)"@);
}

/// The table that `sqlite::sqlite_create_migration_table_text` creates is keyed by the resource key.
pub proof fn law_sqlite_create_migration_table_keyed(table: Seq<char>)
    ensures
        keyed_by_resource_key(sqlite::sqlite_create_migration_table_text(table)),
{
    reveal_strlit("CREATE TABLE ");
    reveal_strlit(" (\n                namespace TEXT NOT NULL,\n                parent_path TEXT NOT NULL,\n                kind TEXT NOT NULL,\n                name TEXT NOT NULL,\n                value BLOB NOT NULL,\n                PRIMARY KEY (namespace, parent_path, kind, name)\n            ) WITHOUT ROWID");
    let head = "CREATE TABLE "@;
    let tail = " (\n                namespace TEXT NOT NULL,\n                parent_path TEXT NOT NULL,\n                kind TEXT NOT NULL,\n                name TEXT NOT NULL,\n                value BLOB NOT NULL,\n                PRIMARY KEY (namespace, parent_path, kind, name)\n            ) WITHOUT ROWID"@;
    assert(tail.subrange(19, 42) =~= "namespace TEXT NOT NULL"@) by {
        reveal_strlit("namespace TEXT NOT NULL");
    }
    lemma_has_text_at(tail, "namespace TEXT NOT NULL"@, 19);
    lemma_has_text_right(head + quoted(table), tail, "namespace TEXT NOT NULL"@);
    assert(tail.subrange(60, 85) =~= "parent_path TEXT NOT NULL"@) by {
        reveal_strlit("parent_path TEXT NOT NULL");
    }
    lemma_has_text_at(tail, "parent_path TEXT NOT NULL"@, 60);
    lemma_has_text_right(head + quoted(table), tail, "parent_path TEXT NOT NULL"@);
    assert(tail.subrange(103, 121) =~= "kind TEXT NOT NULL"@) by {
        reveal_strlit("kind TEXT NOT NULL");
    }
    lemma_has_text_at(tail, "kind TEXT NOT NULL"@, 103);
    lemma_has_text_right(head + quoted(table), tail, "kind TEXT NOT NULL"@);
    assert(tail.subrange(139, 157) =~= "name TEXT NOT NULL"@) by {
        reveal_strlit("name TEXT NOT NULL");
    }
    lemma_has_text_at(tail, "name TEXT NOT NULL"@, 139);
    lemma_has_text_right(head + quoted(table), tail, "name TEXT NOT NULL"@);
    assert(tail.subrange(212, 260) =~= "PRIMARY KEY (namespace, parent_path, kind, name)"@) by {
        reveal_strlit("PRIMARY KEY (namespace, parent_path, kind, name)");
    }
    lemma_has_text_at(tail, "PRIMARY KEY (namespace, parent_path, kind, name)"@, 212);
    lemma_has_text_right(head + quoted(table), tail, "PRIMARY KEY (namespace, parent_path, kind, name)"@);
}

/// The table that `postgres::pg_create_table_text` creates is keyed by the resource key.
pub proof fn law_postgres_create_table_keyed(table: Seq<char>)
    ensures
        keyed_by_resource_key(postgres::pg_create_table_text(table)),
{
    reveal_strlit("CREATE TABLE IF NOT EXISTS ");
    reveal_strlit(" (\n                namespace TEXT NOT NULL,\n                parent_path TEXT NOT NULL,\n                kind TEXT NOT NULL,\n                name TEXT NOT NULL,\n                value BYTEA NOT NULL,\n                PRIMARY KEY (namespace, parent_path, kind, name)\n            )");
    let head = "CREATE TABLE IF NOT EXISTS "@;
    let tail = " (\n                namespace TEXT NOT NULL,\n                parent_path TEXT NOT NULL,\n                kind TEXT NOT NULL,\n                name TEXT NOT NULL,\n                value BYTEA NOT NULL,\n                PRIMARY KEY (namespace, parent_path, kind, name)\n            )"@;
    assert(tail.subrange(19, 42) =~= "namespace TEXT NOT NULL"@) by {
        reveal_strlit("namespace TEXT NOT NULL");
    }
    lemma_has_text_at(tail, "namespace TEXT NOT NULL"@, 19);
    lemma_has_text_right(head + quoted(table), tail, "namespace TEXT NOT NULL"@);
    assert(tail.subrange(60, 85) =~= "parent_path TEXT NOT NULL"@) by {
        reveal_strlit("parent_path TEXT NOT NULL");
    }
    lemma_has_text_at(tail, "parent_path TEXT NOT NULL"@, 60);
    lemma_has_text_right(head + quoted(table), tail, "parent_path TEXT NOT NULL"@);
    assert(tail.subrange(103, 121) =~= "kind TEXT NOT NULL"@) by {
        reveal_strlit("kind TEXT NOT NULL");
    }
    lemma_has_text_at(tail, "kind TEXT NOT NULL"@, 103);
    lemma_has_text_right(head + quoted(table), tail, "kind TEXT NOT NULL"@);
    assert(tail.subrange(139, 157) =~= "name TEXT NOT NULL"@) by {
        reveal_strlit("name TEXT NOT NULL");
    }
    lemma_has_text_at(tail, "name TEXT NOT NULL"@, 139);
    lemma_has_text_right(head + quoted(table), tail, "name TEXT NOT NULL"@);
    assert(tail.subrange(213, 261) =~= "PRIMARY KEY (namespace, parent_path, kind, name)"@) by {
        reveal_strlit("PRIMARY KEY (namespace, parent_path, kind, name)");
    }
    lemma_has_text_at(tail, "PRIMARY KEY (namespace, parent_path, kind, name)"@, 213);
    lemma_has_text_right(head + quoted(table), tail, "PRIMARY KEY (namespace, parent_path, kind, name)"@);
}

/// The table that `postgres::pg_create_migration_table_text` creates is keyed by the resource key.
pub proof fn law_postgres_create_migration_table_keyed(table: Seq<char>)
    ensures
        keyed_by_resource_key(postgres::pg_create_migration_table_text(table)),
{
    reveal_strlit("CREATE TABLE ");
    reveal_strlit(" (\n                namespace TEXT NOT NULL,\n                parent_path TEXT NOT NULL,\n                kind TEXT NOT NULL,\n                name TEXT NOT NULL,\n                value BYTEA NOT NULL,\n                PRIMARY KEY (namespace, parent_path, kind, name)\n            )");
    let head = "CREATE TABLE "@;
    let tail = " (\n                namespace TEXT NOT NULL,\n                parent_path TEXT NOT NULL,\n                kind TEXT NOT NULL,\n                name TEXT NOT NULL,\n                value BYTEA NOT NULL,\n                PRIMARY KEY (namespace, parent_path, kind, name)\n            )"@;
    assert(tail.subrange(19, 42) =~= "namespace TEXT NOT NULL"@) by {
        reveal_strlit("namespace TEXT NOT NULL");
    }
    lemma_has_text_at(tail, "namespace TEXT NOT NULL"@, 19);
    lemma_has_text_right(head + quoted(table), tail, "namespace TEXT NOT NULL"@);
    assert(tail.subrange(60, 85) =~= "parent_path TEXT NOT NULL"@) by {
        reveal_strlit("parent_path TEXT NOT NULL");
    }
    lemma_has_text_at(tail, "parent_path TEXT NOT NULL"@, 60);
    lemma_has_text_right(head + quoted(table), tail, "parent_path TEXT NOT NULL"@);
    assert(tail.subrange(103, 121) =~= "kind TEXT NOT NULL"@) by {
        reveal_strlit("kind TEXT NOT NULL");
    }
    lemma_has_text_at(tail, "kind TEXT NOT NULL"@, 103);
    lemma_has_text_right(head + quoted(table), tail, "kind TEXT NOT NULL"@);
    assert(tail.subrange(139, 157) =~= "name TEXT NOT NULL"@) by {
        reveal_strlit("name TEXT NOT NULL");
    }
    lemma_has_text_at(tail, "name TEXT NOT NULL"@, 139);
    lemma_has_text_right(head + quoted(table), tail, "name TEXT NOT NULL"@);
    assert(tail.subrange(213, 261) =~= "PRIMARY KEY (namespace, parent_path, kind, name)"@) by {
        reveal_strlit("PRIMARY KEY (namespace, parent_path, kind, name)");
    }
    lemma_has_text_at(tail, "PRIMARY KEY (namespace, parent_path, kind, name)"@, 213);
    lemma_has_text_right(head + quoted(table), tail, "PRIMARY KEY (namespace, parent_path, kind, name)"@);
}

/// The table that `sqlite_sql::sqlite_opts_create_table_text` creates is keyed by the resource key.
pub proof fn law_sqlite_sql_create_table_keyed(table: Seq<char>)
    ensures
        keyed_by_resource_key(sqlite_sql::sqlite_opts_create_table_text(table)),
{
    reveal_strlit("CREATE TABLE IF NOT EXISTS ");
    reveal_strlit(" (\n                namespace TEXT NOT NULL,\n                parent_path TEXT NOT NULL,\n                kind TEXT NOT NULL,\n                name TEXT NOT NULL,\n                value BLOB NOT NULL,\n                PRIMARY KEY (namespace, parent_path, kind, name)\n            ) WITHOUT ROWID");
    let head = "CREATE TABLE IF NOT EXISTS "@;
    let tail = " (\n                namespace TEXT NOT NULL,\n                parent_path TEXT NOT NULL,\n                kind TEXT NOT NULL,\n                name TEXT NOT NULL,\n                value BLOB NOT NULL,\n                PRIMARY KEY (namespace, parent_path, kind, name)\n            ) WITHOUT ROWID"@;
    assert(tail.subrange(19, 42) =~= "namespace TEXT NOT NULL"@) by {
        reveal_strlit("namespace TEXT NOT NULL");
    }
    lemma_has_text_at(tail, "namespace TEXT NOT NULL"@, 19);
    lemma_has_text_right(head + quoted(table), tail, "namespace TEXT NOT NULL"@);
    assert(tail.subrange(60, 85) =~= "parent_path TEXT NOT NULL"@) by {
        reveal_strlit("parent_path TEXT NOT NULL");
    }
    lemma_has_text_at(tail, "parent_path TEXT NOT NULL"@, 60);
    lemma_has_text_right(head + quoted(table), tail, "parent_path TEXT NOT NULL"@);
    assert(tail.subrange(103, 121) =~= "kind TEXT NOT NULL"@) by {
        reveal_strlit("kind TEXT NOT NULL");
    }
    lemma_has_text_at(tail, "kind TEXT NOT NULL"@, 103);
    lemma_has_text_right(head + quoted(table), tail, "kind TEXT NOT NULL"@);
    assert(tail.subrange(139, 157) =~= "name TEXT NOT NULL"@) by {
        reveal_strlit("name TEXT NOT NULL");
    }
    lemma_has_text_at(tail, "name TEXT NOT NULL"@, 139);
    lemma_has_text_right(head + quoted(table), tail, "name TEXT NOT NULL"@);
    assert(tail.subrange(212, 260) =~= "PRIMARY KEY (namespace, parent_path, kind, name)"@) by {
        reveal_strlit("PRIMARY KEY (namespace, parent_path, kind, name)");
    }
    lemma_has_text_at(tail, "PRIMARY KEY (namespace, parent_path, kind, name)"@, 212);
    lemma_has_text_right(head + quoted(table), tail, "PRIMARY KEY (namespace, parent_path, kind, name)"@);
}

/// The table that `sqlite_sql::sqlite_opts_create_migration_table_text` creates is keyed by the resource key.
pub proof fn law_sqlite_sql_create_migration_table_keyed(table: Seq<char>)
    ensures
        keyed_by_resource_key(sqlite_sql::sqlite_opts_create_migration_table_text(table)),
{
    reveal_strlit("CREATE TABLE ");
    reveal_strlit(" (\n                namespace TEXT NOT NULL,\n                parent_path TEXT NOT NULL,\n                kind TEXT NOT NULL,\n                name TEXT NOT NULL,\n                value BLOB NOT NULL,\n                PRIMARY KEY (namespace, parent_path, kind, name)\n            ) WITHOUT ROWID");
    let head = "CREATE TABLE "@;
    let tail = " (\n                namespace TEXT NOT NULL,\n                parent_path TEXT NOT NULL,\n                kind TEXT NOT NULL,\n                name TEXT NOT NULL,\n                value BLOB NOT NULL,\n                PRIMARY KEY (namespace, parent_path, kind, name)\n            ) WITHOUT ROWID"@;
    assert(tail.subrange(19, 42) =~= "namespace TEXT NOT NULL"@) by {
        reveal_strlit("namespace TEXT NOT NULL");
    }
    lemma_has_text_at(tail, "namespace TEXT NOT NULL"@, 19);
    lemma_has_text_right(head + quoted(table), tail, "namespace TEXT NOT NULL"@);
    assert(tail.subrange(60, 85) =~= "parent_path TEXT NOT NULL"@) by {
        reveal_strlit("parent_path TEXT NOT NULL");
    }
    lemma_has_text_at(tail, "parent_path TEXT NOT NULL"@, 60);
    lemma_has_text_right(head + quoted(table), tail, "parent_path TEXT NOT NULL"@);
    assert(tail.subrange(103, 121) =~= "kind TEXT NOT NULL"@) by {
        reveal_strlit("kind TEXT NOT NULL");
    }
    lemma_has_text_at(tail, "kind TEXT NOT NULL"@, 103);
    lemma_has_text_right(head + quoted(table), tail, "kind TEXT NOT NULL"@);
    assert(tail.subrange(139, 157) =~= "name TEXT NOT NULL"@) by {
        reveal_strlit("name TEXT NOT NULL");
    }
    lemma_has_text_at(tail, "name TEXT NOT NULL"@, 139);
    lemma_has_text_right(head + quoted(table), tail, "name TEXT NOT NULL"@);
    assert(tail.subrange(212, 260) =~= "PRIMARY KEY (namespace, parent_path, kind, name)"@) by {
        reveal_strlit("PRIMARY KEY (namespace, parent_path, kind, name)");
    }
    lemma_has_text_at(tail, "PRIMARY KEY (namespace, parent_path, kind, name)"@, 212);
    lemma_has_text_right(head + quoted(table), tail, "PRIMARY KEY (namespace, parent_path, kind, name)"@);
}

} // verus!
