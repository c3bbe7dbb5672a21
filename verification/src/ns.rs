//! Namespaces.  A namespace name is a `:`-separated path such as
//! `conic:wks:13`, whose ancestors are its `:`-prefixes.

use vstd::prelude::*;
use crate::text::{chars_of, last_index, strings_view, lemma_last_index_props, rfind_char, string_of, sub_chars, trim_ws_chars, trim_ws_text};

verus! {

/// Core system namespace for control plane resources.
pub const TALON_SYSTEM: &'static str = "Sys";

/// Built-in root-level namespace for quickstarts and single-tenant use.
pub const DEFAULT: &'static str = "default";

/// Standard domain prefix for API groups and labels.
pub const TALON_DOMAIN: &'static str = "talon.impalasys.com";

/// `s` and then its `:`-prefixes, longest first, ending with the part before
/// the first `:`.
pub open spec fn ancestry_chain(s: Seq<char>) -> Seq<Seq<char>>
    decreases s.len(),
{
    if s.len() == 0 {
        seq![]
    } else {
        match last_index(s, ':') {
            Some(j) => if 0 <= j < s.len() {
                seq![s] + ancestry_chain(s.subrange(0, j))
            } else {
                seq![s]
            },
            None => seq![s],
        }
    }
}

/// The ancestry of a namespace, most specific first: the trimmed name and
/// each of its `:`-prefixes.
pub fn ancestry(namespace: &str) -> (chain: Vec<String>)
    ensures
        strings_view(chain@) == ancestry_chain(trim_ws_text(namespace@)),
{
    let v = chars_of(namespace);
    let mut current = trim_ws_chars(&v);
    let mut chain: Vec<String> = Vec::new();
    while current.len() > 0
        invariant
            ancestry_chain(trim_ws_text(namespace@)) == strings_view(chain@) + ancestry_chain(current@),
        decreases current.len(),
    {
        let ghost before = strings_view(chain@);
        chain.push(string_of(&current));
        assert(strings_view(chain@) =~= before + seq![current@]);
        match rfind_char(&current, ':') {
            Some(j) => {
                let ghost cur = current@;
                current = sub_chars(&current, 0, j);
                assert(strings_view(chain@) + ancestry_chain(current@) =~= before + ancestry_chain(cur));
            },
            None => {
                assert(strings_view(chain@) =~= before + ancestry_chain(current@));
                assert(strings_view(chain@) + ancestry_chain(seq![]) =~= strings_view(chain@));
                return chain;
            },
        }
    }
    assert(strings_view(chain@) + ancestry_chain(current@) =~= strings_view(chain@));
    chain
}

/// Each namespace in an ancestry chain is the one before it cut at its last
/// `:`: a strict prefix, followed there by `:`.
pub proof fn lemma_ancestry_prefixes(s: Seq<char>)
    ensures
        forall|i: int|
            0 < i < ancestry_chain(s).len() ==> {
                let parent = #[trigger] ancestry_chain(s)[i];
                let child = ancestry_chain(s)[i - 1];
                &&& parent.len() < child.len()
                &&& child.subrange(0, parent.len() as int) == parent
                &&& child[parent.len() as int] == ':'
            },
        s.len() > 0 ==> ancestry_chain(s).len() > 0 && ancestry_chain(s)[0] == s,
    decreases s.len(),
{
    if s.len() > 0 {
        lemma_last_index_props(s, ':');
        match last_index(s, ':') {
            Some(j) => {
                if 0 <= j < s.len() {
                    let p = s.subrange(0, j);
                    lemma_ancestry_prefixes(p);
                    reveal_with_fuel(ancestry_chain, 1);
                    let chain = ancestry_chain(s);
                    assert(chain == seq![s] + ancestry_chain(p));
                    assert forall|i: int| 0 < i < chain.len() implies {
                        let parent = #[trigger] chain[i];
                        let child = chain[i - 1];
                        &&& parent.len() < child.len()
                        &&& child.subrange(0, parent.len() as int) == parent
                        &&& child[parent.len() as int] == ':'
                    } by {
                        if i == 1 {
                            if p.len() > 0 {
                                assert(chain[1] == p);
                            } else {
                                assert(ancestry_chain(p) =~= seq![]);
                            }
                            assert(s[j] == ':');
                        } else {
                            assert(chain[i] == ancestry_chain(p)[i - 1]);
                            assert(chain[i - 1] == ancestry_chain(p)[i - 2]);
                        }
                    }
                }
            },
            None => {},
        }
    }
}

} // verus!
