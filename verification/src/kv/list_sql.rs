//! The `WHERE`, `ORDER BY` and `LIMIT` pieces of direct-child listing
//! queries, for SQL dialects whose placeholders are a sigil and a number
//! (`$3` in Postgres, `?3` in SQLite).

use vstd::prelude::*;
use crate::kv::options::{ListOptions, Order};
use crate::text::{owned, push_char, push_str};

verus! {

/// The placeholder for bind parameter `n` (a single digit).
pub open spec fn bind_text(sigil: char, n: u8) -> Seq<char> {
    seq![sigil, ((48 + n) as u8) as char]
}

/// The bind parameter that follows the namespace, parent path and, when
/// filtered, the kind.
pub open spec fn first_free_bind(has_kind: bool) -> u8 {
    if has_kind {
        4
    } else {
        3
    }
}

/// The filter conditions of a listing, in order.
pub open spec fn filter_parts(has_kind: bool, options: ListOptions, sigil: char) -> Seq<Seq<char>> {
    let first = first_free_bind(has_kind);
    let kind_part = if has_kind {
        seq!["AND kind = "@ + bind_text(sigil, 3)]
    } else {
        seq![]
    };
    let before_part = if options.before_name is Some {
        seq!["AND name < "@ + bind_text(sigil, first)]
    } else {
        seq![]
    };
    let after_bind = if options.before_name is Some {
        (first + 1) as u8
    } else {
        first
    };
    let after_part = if options.after_name is Some {
        seq!["AND name > "@ + bind_text(sigil, after_bind)]
    } else {
        seq![]
    };
    kind_part + before_part + after_part
}

/// Parts joined by single spaces.
pub open spec fn join_space(parts: Seq<Seq<char>>) -> Seq<char>
    decreases parts.len(),
{
    if parts.len() == 0 {
        seq![]
    } else if parts.len() == 1 {
        parts[0]
    } else {
        join_space(parts.drop_last()) + seq![' '] + parts.last()
    }
}

/// The filter conditions of a listing joined by spaces.
pub open spec fn filter_text(has_kind: bool, options: ListOptions, sigil: char) -> Seq<char> {
    join_space(filter_parts(has_kind, options, sigil))
}

/// The `LIMIT` clause of a listing, bound after all filter parameters.
pub open spec fn limit_text(has_kind: bool, options: ListOptions, sigil: char) -> Seq<char> {
    let n = first_free_bind(has_kind) + (if options.before_name is Some {
        1u8
    } else {
        0u8
    }) + (if options.after_name is Some {
        1u8
    } else {
        0u8
    });
    if options.limit is Some {
        " LIMIT "@ + bind_text(sigil, n as u8)
    } else {
        seq![]
    }
}

/// `ASC` or `DESC`.
pub open spec fn order_text(order: Order) -> Seq<char> {
    if order == Order::Desc {
        "DESC"@
    } else {
        "ASC"@
    }
}

/// `ASC` or `DESC`.
pub fn order_sql(order: Order) -> (s: &'static str)
    ensures
        s@ == order_text(order),
{
    if order == Order::Desc {
        "DESC"
    } else {
        "ASC"
    }
}

fn bind(sigil: char, n: u8) -> (s: String)
    requires
        n < 10,
    ensures
        s@ == bind_text(sigil, n),
{
    let mut s = String::new();
    push_char(&mut s, sigil);
    push_char(&mut s, (48 + n) as char);
    assert(s@ =~= bind_text(sigil, n));
    s
}

/// Parts joined by single spaces.
pub fn join_with_space(parts: &Vec<String>) -> (s: String)
    ensures
        s@ == join_space(parts@.map_values(|p: String| p@)),
{
    let ghost views = parts@.map_values(|p: String| p@);
    let mut s = String::new();
    let mut i: usize = 0;
    while i < parts.len()
        invariant
            i <= parts.len(),
            views == parts@.map_values(|p: String| p@),
            s@ == join_space(views.take(i as int)),
        decreases parts.len() - i,
    {
        if i > 0 {
            push_char(&mut s, ' ');
        }
        push_str(&mut s, parts[i].as_str());
        proof {
            let t = views.take(i + 1);
            assert(t.drop_last() =~= views.take(i as int));
            assert(t.last() == parts@[i as int]@);
            if i == 0 {
                assert(s@ =~= join_space(t));
            } else {
                assert(s@ =~= join_space(t));
            }
        }
        i += 1;
    }
    assert(views.take(parts.len() as int) =~= views);
    s
}

fn clause(head: &str, sigil: char, n: u8) -> (s: String)
    requires
        n < 10,
    ensures
        s@ == head@ + bind_text(sigil, n),
{
    let mut s = owned(head);
    let b = bind(sigil, n);
    push_str(&mut s, b.as_str());
    s
}

/// The filter conditions of a listing joined by spaces.
pub fn filter_clause(has_kind: bool, options: ListOptions<'_>, sigil: char) -> (s: String)
    ensures
        s@ == filter_text(has_kind, options, sigil),
{
    let first: u8 = if has_kind {
        4
    } else {
        3
    };
    let mut parts: Vec<String> = Vec::new();
    if has_kind {
        parts.push(clause("AND kind = ", sigil, 3));
    }
    if options.before_name.is_some() {
        parts.push(clause("AND name < ", sigil, first));
    }
    let after_bind = if options.before_name.is_some() {
        first + 1
    } else {
        first
    };
    if options.after_name.is_some() {
        parts.push(clause("AND name > ", sigil, after_bind));
    }
    assert(parts@.map_values(|p: String| p@) =~= filter_parts(has_kind, options, sigil));
    join_with_space(&parts)
}

/// The `LIMIT` clause of a listing.
pub fn limit_clause(has_kind: bool, options: ListOptions<'_>, sigil: char) -> (s: String)
    ensures
        s@ == limit_text(has_kind, options, sigil),
{
    let mut next: u8 = if has_kind {
        4
    } else {
        3
    };
    if options.before_name.is_some() {
        next += 1;
    }
    if options.after_name.is_some() {
        next += 1;
    }
    if options.limit.is_some() {
        clause(" LIMIT ", sigil, next)
    } else {
        String::new()
    }
}

} // verus!
