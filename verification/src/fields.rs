//! Text fields: `(field, value)` pairs read as a map, as object metadata
//! and resource labels are kept.

use vstd::prelude::*;
use crate::text::{owned, str_eq};

verus! {

/// The metadata pairs as texts.
pub open spec fn meta_pairs(v: Seq<(String, String)>) -> Seq<(Seq<char>, Seq<char>)> {
    v.map_values(|e: (String, String)| (e.0@, e.1@))
}

/// The value of `field` in `pairs`: that of its last pair.
pub open spec fn meta_lookup(pairs: Seq<(Seq<char>, Seq<char>)>, field: Seq<char>) -> Option<Seq<char>>
    decreases pairs.len(),
{
    if pairs.len() == 0 {
        None
    } else if pairs.last().0 == field {
        Some(pairs.last().1)
    } else {
        meta_lookup(pairs.drop_last(), field)
    }
}

/// Whether no field has two pairs.
pub open spec fn fields_distinct(v: Seq<(String, String)>) -> bool {
    forall|i: int, j: int| 0 <= i < j < v.len() ==> #[trigger] v[i].0@ != #[trigger] v[j].0@
}

/// The metadata as a map from field to value.
pub open spec fn meta_map(v: Seq<(String, String)>) -> Map<Seq<char>, Seq<char>> {
    Map::new(
        |f: Seq<char>| meta_lookup(meta_pairs(v), f) is Some,
        |f: Seq<char>| meta_lookup(meta_pairs(v), f)->0,
    )
}

pub proof fn lemma_lookup_push(v: Seq<(String, String)>, e: (String, String), f: Seq<char>)
    ensures
        meta_lookup(meta_pairs(v.push(e)), f) == if e.0@ == f {
            Some(e.1@)
        } else {
            meta_lookup(meta_pairs(v), f)
        },
{
    assert(meta_pairs(v.push(e)).drop_last() =~= meta_pairs(v));
}

/// A copy of metadata pairs.
pub fn clone_metadata(v: &Vec<(String, String)>) -> (r: Vec<(String, String)>)
    ensures
        r@ == v@,
{
    let mut r: Vec<(String, String)> = Vec::new();
    let mut i: usize = 0;
    while i < v.len()
        invariant
            i <= v.len(),
            r@ == v@.take(i as int),
        decreases v.len() - i,
    {
        let e = (v[i].0.clone(), v[i].1.clone());
        r.push(e);
        assert(r@ =~= v@.take(i + 1));
        i += 1;
    }
    assert(v@.take(v.len() as int) =~= v@);
    r
}

/// The value of `field`, if any.
pub fn metadata_get<'a>(v: &'a Vec<(String, String)>, field: &str) -> (r: Option<&'a String>)
    ensures
        match r {
            Some(x) => meta_lookup(meta_pairs(v@), field@) == Some(x@),
            None => meta_lookup(meta_pairs(v@), field@) is None,
        },
{
    let mut k: usize = v.len();
    assert(v@.take(k as int) =~= v@);
    while k > 0
        invariant
            k <= v.len(),
            meta_lookup(meta_pairs(v@), field@) == meta_lookup(meta_pairs(v@.take(k as int)), field@),
        decreases k,
    {
        proof {
            assert(v@.take(k as int) =~= v@.take(k - 1).push(v@[k - 1]));
            lemma_lookup_push(v@.take(k - 1), v@[k - 1], field@);
        }
        if str_eq(v[k - 1].0.as_str(), field) {
            return Some(&v[k - 1].1);
        }
        k -= 1;
    }
    None
}

/// Removes every pair of `field`.
pub fn metadata_remove(v: &mut Vec<(String, String)>, field: &str)
    ensures
        forall|f: Seq<char>|
            #[trigger] meta_lookup(meta_pairs(final(v)@), f) == if f == field@ {
                None
            } else {
                meta_lookup(meta_pairs(old(v)@), f)
            },
        forall|i: int| 0 <= i < final(v)@.len() ==> (#[trigger] final(v)@[i]).0@ != field@,
        fields_distinct(old(v)@) ==> fields_distinct(final(v)@),
{
    let ghost orig = v@;
    let mut rest: Vec<(String, String)> = Vec::new();
    std::mem::swap(v, &mut rest);
    let ghost mut done: int = 0;
    proof {
        assert(rest@ =~= orig.skip(0));
        assert(orig.take(0) =~= Seq::<(String, String)>::empty());
    }
    while rest.len() > 0
        invariant
            0 <= done <= orig.len(),
            rest@ == orig.skip(done),
            forall|f: Seq<char>|
                #[trigger] meta_lookup(meta_pairs(v@), f) == if f == field@ {
                    None
                } else {
                    meta_lookup(meta_pairs(orig.take(done)), f)
                },
            forall|i: int| 0 <= i < v@.len() ==> (#[trigger] v@[i]).0@ != field@,
            fields_distinct(orig) ==> fields_distinct(v@),
            fields_distinct(orig) ==> forall|i: int, j: int|
                0 <= i < v@.len() && done <= j < orig.len() ==> #[trigger] v@[i].0@ != #[trigger] orig[j].0@,
        decreases rest.len(),
    {
        let e = rest.remove(0);
        proof {
            assert(e == orig[done]);
            assert(rest@ =~= orig.skip(done + 1));
            assert(orig.take(done + 1) =~= orig.take(done).push(e));
        }
        let ghost before = v@;
        if !str_eq(e.0.as_str(), field) {
            v.push(e);
            proof {
                if fields_distinct(orig) {
                    assert forall|i: int, j: int| 0 <= i < j < v@.len() implies #[trigger] v@[i].0@
                        != #[trigger] v@[j].0@ by {
                        if j == v@.len() - 1 {
                            assert(v@[j] == orig[done]);
                            assert(before[i].0@ != orig[done].0@);
                        }
                    }
                    assert forall|i: int, j: int|
                        0 <= i < v@.len() && done + 1 <= j < orig.len() implies #[trigger] v@[i].0@
                        != #[trigger] orig[j].0@ by {
                        if i == v@.len() - 1 {
                            assert(orig[done].0@ != orig[j].0@);
                        } else {
                            assert(v@[i] == before[i]);
                        }
                    }
                }
            }
        }
        proof {
            assert forall|f: Seq<char>|
                #[trigger] meta_lookup(meta_pairs(v@), f) == if f == field@ {
                    None
                } else {
                    meta_lookup(meta_pairs(orig.take(done + 1)), f)
                } by {
                lemma_lookup_push(orig.take(done), e, f);
                if e.0@ != field@ {
                    lemma_lookup_push(before, e, f);
                }
            }
            done = done + 1;
        }
    }
    proof {
        assert(orig.take(done) =~= orig);
    }
}

/// Sets `field` to `value`, replacing any earlier pair of `field`.
pub fn metadata_insert(v: &mut Vec<(String, String)>, field: &str, value: &str)
    ensures
        forall|f: Seq<char>|
            #[trigger] meta_lookup(meta_pairs(final(v)@), f) == if f == field@ {
                Some(value@)
            } else {
                meta_lookup(meta_pairs(old(v)@), f)
            },
        meta_map(final(v)@) == meta_map(old(v)@).insert(field@, value@),
        fields_distinct(old(v)@) ==> fields_distinct(final(v)@),
{
    metadata_remove(v, field);
    let ghost before = v@;
    let e = (owned(field), owned(value));
    let ghost pushed = e;
    v.push(e);
    proof {
        assert forall|f: Seq<char>|
            #[trigger] meta_lookup(meta_pairs(v@), f) == if f == field@ {
                Some(value@)
            } else {
                meta_lookup(meta_pairs(old(v)@), f)
            } by {
            lemma_lookup_push(before, pushed, f);
        }
        assert(meta_map(v@) =~= meta_map(old(v)@).insert(field@, value@));
    }
}

} // verus!
