//! Pages of listed keys, newest name first, below an exclusive name cursor.

use vstd::prelude::*;
use crate::keys::ResourceKey;
use crate::text::chars_of;

verus! {

/// `a` sorts before `b` as `str`'s `<` orders them.  UTF-8 keeps the order of
/// code points, so comparing the bytes is comparing the characters, first
/// difference first, a proper prefix before the longer text.
pub open spec fn text_lt(a: Seq<char>, b: Seq<char>) -> bool
    decreases a.len(),
{
    if b.len() == 0 {
        false
    } else if a.len() == 0 {
        true
    } else if a[0] != b[0] {
        (a[0] as int) < (b[0] as int)
    } else {
        text_lt(a.drop_first(), b.drop_first())
    }
}

/// No text sorts before itself.
pub proof fn lemma_text_lt_irreflexive(a: Seq<char>)
    ensures
        !text_lt(a, a),
    decreases a.len(),
{
    if a.len() > 0 {
        lemma_text_lt_irreflexive(a.drop_first());
    }
}

/// Of two texts, at most one sorts before the other.
pub proof fn lemma_text_lt_asymmetric(a: Seq<char>, b: Seq<char>)
    ensures
        text_lt(a, b) ==> !text_lt(b, a),
    decreases a.len(),
{
    if a.len() > 0 && b.len() > 0 && a[0] == b[0] {
        lemma_text_lt_asymmetric(a.drop_first(), b.drop_first());
    }
}

/// The order is transitive.
pub proof fn lemma_text_lt_transitive(a: Seq<char>, b: Seq<char>, c: Seq<char>)
    requires
        text_lt(a, b),
        text_lt(b, c),
    ensures
        text_lt(a, c),
    decreases a.len(),
{
    if a.len() > 0 && a[0] == b[0] && b[0] == c[0] {
        lemma_text_lt_transitive(a.drop_first(), b.drop_first(), c.drop_first());
    }
}

/// Of two different texts, one sorts before the other.
pub proof fn lemma_text_lt_total(a: Seq<char>, b: Seq<char>)
    ensures
        a == b || text_lt(a, b) || text_lt(b, a),
    decreases a.len(),
{
    if a.len() > 0 && b.len() > 0 && a[0] == b[0] {
        lemma_text_lt_total(a.drop_first(), b.drop_first());
        if a.drop_first() == b.drop_first() {
            assert(a =~= seq![a[0]] + a.drop_first());
            assert(b =~= seq![b[0]] + b.drop_first());
        }
    } else if a.len() == 0 && b.len() == 0 {
        assert(a =~= b);
    }
}

/// Whether `a < b` for strings.
pub fn text_less(a: &str, b: &str) -> (r: bool)
    ensures
        r == text_lt(a@, b@),
{
    let va = chars_of(a);
    let vb = chars_of(b);
    let mut i: usize = 0;
    proof {
        assert(a@.skip(0) =~= a@);
        assert(b@.skip(0) =~= b@);
    }
    while i < va.len() && i < vb.len()
        invariant
            i <= va.len(),
            i <= vb.len(),
            va@ == a@,
            vb@ == b@,
            text_lt(a@, b@) == text_lt(a@.skip(i as int), b@.skip(i as int)),
        decreases va.len() - i,
    {
        let x = va[i];
        let y = vb[i];
        if x != y {
            proof {
                assert(a@.skip(i as int)[0] == x);
                assert(b@.skip(i as int)[0] == y);
            }
            return x < y;
        }
        proof {
            assert(a@.skip(i as int).drop_first() =~= a@.skip(i + 1));
            assert(b@.skip(i as int).drop_first() =~= b@.skip(i + 1));
        }
        i += 1;
    }
    i < vb.len()
}

/// Something listed under a resource name.
pub trait Named {
    /// The resource name.
    spec fn name_view(&self) -> Seq<char>;

    /// The resource name.
    fn name_str(&self) -> (r: &str)
        ensures
            r@ == self.name_view(),
    ;
}

impl Named for ResourceKey {
    open spec fn name_view(&self) -> Seq<char> {
        self.name@
    }

    fn name_str(&self) -> (r: &str) {
        self.name.as_str()
    }
}

impl Named for (ResourceKey, Vec<u8>) {
    open spec fn name_view(&self) -> Seq<char> {
        self.0.name@
    }

    fn name_str(&self) -> (r: &str) {
        self.0.name.as_str()
    }
}

/// The cursor as text.
pub open spec fn cursor_view(before_name: Option<&str>) -> Option<Seq<char>> {
    match before_name {
        Some(c) => Some(c@),
        None => None,
    }
}

/// Whether an item's name lies strictly before the cursor, if there is one.
pub open spec fn passes_cursor<T: Named>(before: Option<Seq<char>>) -> spec_fn(T) -> bool {
    |x: T|
        match before {
            Some(c) => text_lt(x.name_view(), c),
            None => true,
        }
}

/// Whether an item is named `n`.
pub open spec fn named<T: Named>(n: Seq<char>) -> spec_fn(T) -> bool {
    |x: T| x.name_view() == n
}

/// No name sorts before a name after it.
pub open spec fn sorted_by_name_desc<T: Named>(s: Seq<T>) -> bool {
    forall|i: int, j: int|
        0 <= i < j < s.len() ==> !text_lt(#[trigger] s[i].name_view(), #[trigger] s[j].name_view())
}

/// `t` is `s` sorted by name, greatest first, with the items of one name in
/// the order they had in `s` (a stable sort).
pub open spec fn stable_sort_desc_of<T: Named>(t: Seq<T>, s: Seq<T>) -> bool {
    &&& t.len() == s.len()
    &&& sorted_by_name_desc(t)
    &&& forall|n: Seq<char>| #[trigger] t.filter(named::<T>(n)) == s.filter(named::<T>(n))
}

/// `page` is the first `limit` items of the items before the cursor, stably
/// sorted by name, greatest first.
pub open spec fn page_desc_of<T: Named>(
    page: Seq<T>,
    items: Seq<T>,
    before: Option<Seq<char>>,
    limit: nat,
) -> bool {
    if limit == 0 {
        page.len() == 0
    } else {
        exists|t: Seq<T>|
            #[trigger] stable_sort_desc_of(t, items.filter(passes_cursor::<T>(before)))
                && page == t.take(if limit < t.len() { limit as int } else { t.len() as int })
    }
}

/// Inserting `x` where every later item sorts before it adds `x` to the end
/// of its own name's group and leaves the other groups alone.
proof fn lemma_insert_groups<T: Named>(out: Seq<T>, p: int, x: T, n: Seq<char>)
    requires
        0 <= p <= out.len(),
        forall|k: int| p <= k < out.len() ==> text_lt(#[trigger] out[k].name_view(), x.name_view()),
    ensures
        out.insert(p, x).filter(named::<T>(n)) == if x.name_view() == n {
            out.filter(named::<T>(n)).push(x)
        } else {
            out.filter(named::<T>(n))
        },
{
    let f = named::<T>(n);
    let a = out.take(p);
    let b = out.skip(p);
    assert(out =~= a + b);
    assert(out.insert(p, x) =~= a + seq![x] + b);
    Seq::filter_distributes_over_add(a, b, f);
    Seq::filter_distributes_over_add(a + seq![x], b, f);
    Seq::filter_distributes_over_add(a, seq![x], f);
    reveal(Seq::filter);
    assert(seq![x].drop_last() =~= Seq::<T>::empty());
    assert(Seq::<T>::empty().filter(f) =~= Seq::<T>::empty());
    assert(seq![x].last() == x);
    assert(seq![x].filter(f) == if f(x) { seq![x] } else { Seq::<T>::empty() });
    if x.name_view() == n {
        assert forall|k: int| 0 <= k < b.len() implies !f(#[trigger] b[k]) by {
            assert(b[k] == out[p + k]);
            lemma_text_lt_irreflexive(x.name_view());
        }
        assert(b.all(|y: T| !f(y)));
        b.lemma_all_neg_filter_empty(f);
        assert(b.filter(f) =~= Seq::<T>::empty());
        assert(out.filter(f) =~= a.filter(f));
        assert(out.insert(p, x).filter(f) =~= a.filter(f).push(x));
    } else {
        assert(out.insert(p, x).filter(f) =~= out.filter(f));
    }
}

/// The first `limit` items before the cursor, stably sorted by name,
/// greatest first.
fn page_desc<T: Named>(items: Vec<T>, before_name: Option<&str>, limit: usize) -> (page: Vec<T>)
    ensures
        page_desc_of(page@, items@, cursor_view(before_name), limit as nat),
{
    if limit == 0 {
        return Vec::new();
    }
    let ghost orig = items@;
    let ghost pred = passes_cursor::<T>(cursor_view(before_name));
    let mut items = items;
    let mut out: Vec<T> = Vec::new();
    let ghost mut done: int = 0;
    proof {
        assert(orig.take(0) =~= Seq::<T>::empty());
        reveal(Seq::filter);
        assert forall|n: Seq<char>|
            #[trigger] out@.filter(named::<T>(n)) == orig.take(0).filter(pred).filter(named::<T>(n)) by {
            reveal(Seq::filter);
        }
        assert(orig.skip(0) =~= orig);
    }
    while items.len() > 0
        invariant
            0 <= done <= orig.len(),
            items@ == orig.skip(done),
            pred == passes_cursor::<T>(cursor_view(before_name)),
            sorted_by_name_desc(out@),
            out@.len() == orig.take(done).filter(pred).len(),
            forall|n: Seq<char>|
                #[trigger] out@.filter(named::<T>(n)) == orig.take(done).filter(pred).filter(named::<T>(n)),
        decreases items.len(),
    {
        let x = items.remove(0);
        proof {
            assert(x == orig[done]);
            assert(orig.take(done + 1) =~= orig.take(done).push(x));
            assert(items@ =~= orig.skip(done + 1));
            orig.take(done).lemma_filter_push(x, pred);
        }
        let keep = match before_name {
            Some(c) => text_less(x.name_str(), c),
            None => true,
        };
        assert(keep == pred(x));
        if keep {
            let mut p: usize = 0;
            while p < out.len() && !text_less(out[p].name_str(), x.name_str())
                invariant
                    p <= out.len(),
                    forall|k: int| 0 <= k < p ==> !text_lt(#[trigger] out@[k].name_view(), x.name_view()),
                decreases out.len() - p,
            {
                p += 1;
            }
            let ghost before = out@;
            proof {
                assert forall|k: int| p <= k < before.len() implies text_lt(
                    #[trigger] before[k].name_view(),
                    x.name_view(),
                ) by {
                    if k > p {
                        lemma_text_lt_total(before[k].name_view(), before[p as int].name_view());
                        if text_lt(before[k].name_view(), before[p as int].name_view()) {
                            lemma_text_lt_transitive(
                                before[k].name_view(),
                                before[p as int].name_view(),
                                x.name_view(),
                            );
                        }
                    }
                }
            }
            out.insert(p, x);
            proof {
                let s = out@;
                assert forall|i: int, j: int| 0 <= i < j < s.len() implies !text_lt(
                    #[trigger] s[i].name_view(),
                    #[trigger] s[j].name_view(),
                ) by {
                    if j < p {
                        assert(s[i] == before[i] && s[j] == before[j]);
                    } else if j == p {
                        assert(s[i] == before[i]);
                    } else if i < p {
                        assert(s[i] == before[i] && s[j] == before[j - 1]);
                    } else if i == p {
                        assert(s[j] == before[j - 1]);
                        lemma_text_lt_asymmetric(before[j - 1].name_view(), x.name_view());
                    } else {
                        assert(s[i] == before[i - 1] && s[j] == before[j - 1]);
                    }
                }
                assert forall|n: Seq<char>|
                    #[trigger] out@.filter(named::<T>(n)) == orig.take(done + 1).filter(pred).filter(
                        named::<T>(n),
                    ) by {
                    lemma_insert_groups(before, p as int, x, n);
                    orig.take(done).filter(pred).lemma_filter_push(x, named::<T>(n));
                }
            }
        }
        proof {
            done = done + 1;
        }
    }
    proof {
        assert(orig.take(done) =~= orig);
        assert(stable_sort_desc_of(out@, orig.filter(pred)));
    }
    let ghost full = out@;
    out.truncate(limit);
    proof {
        let m = if (limit as nat) < full.len() { limit as int } else { full.len() as int };
        assert(out@ =~= full.take(m));
    }
    out
}

/// The first `limit` keys named before `before_name` (all keys without a
/// cursor), greatest name first; keys of one name keep their order.
pub fn page_keys_desc(keys: Vec<ResourceKey>, before_name: Option<&str>, limit: usize) -> (page: Vec<
    ResourceKey,
>)
    ensures
        page_desc_of(page@, keys@, cursor_view(before_name), limit as nat),
{
    page_desc(keys, before_name, limit)
}

/// The first `limit` entries whose key is named before `before_name` (all
/// entries without a cursor), greatest name first; entries of one name keep
/// their order.
pub fn page_entries_desc(
    entries: Vec<(ResourceKey, Vec<u8>)>,
    before_name: Option<&str>,
    limit: usize,
) -> (page: Vec<(ResourceKey, Vec<u8>)>)
    ensures
        page_desc_of(page@, entries@, cursor_view(before_name), limit as nat),
{
    page_desc(entries, before_name, limit)
}

/// A page is in name order, greatest first; every name on it lies before
/// the cursor; and it holds `limit` items, or all items before the cursor
/// when there are fewer.
pub proof fn lemma_page_desc_props<T: Named>(
    page: Seq<T>,
    items: Seq<T>,
    before: Option<Seq<char>>,
    limit: nat,
)
    requires
        page_desc_of(page, items, before, limit),
    ensures
        sorted_by_name_desc(page),
        forall|i: int| 0 <= i < page.len() ==> #[trigger] passes_cursor::<T>(before)(page[i]),
        page.len() == if limit < items.filter(passes_cursor::<T>(before)).len() {
            limit as int
        } else {
            items.filter(passes_cursor::<T>(before)).len() as int
        },
{
    if limit > 0 {
        let pred = passes_cursor::<T>(before);
        let s = items.filter(pred);
        let t = choose|t: Seq<T>|
            #[trigger] stable_sort_desc_of(t, s) && page == t.take(
                if limit < t.len() { limit as int } else { t.len() as int },
            );
        assert forall|i: int| 0 <= i < page.len() implies #[trigger] pred(page[i]) by {
            let x = t[i];
            assert(page[i] == x);
            let f = named::<T>(x.name_view());
            t.lemma_filter_contains(f, i);
            assert(s.filter(f).contains(x));
            s.lemma_filter_contains_rev(f, x);
            let k = choose|k: int| 0 <= k < s.len() && s[k] == x;
            items.lemma_filter_pred(pred, k);
        }
    }
}

} // verus!
