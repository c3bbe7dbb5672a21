//! Keys of the RocksDB store: the UTF-8 bytes of canonical key texts, so
//! that a listing's children are one contiguous byte range; its pages go
//! by resource name.

use vstd::prelude::*;
use vstd::utf8::{decode_utf8, encode_utf8, encode_utf8_decode_utf8, encode_utf8_valid_utf8, valid_utf8};
use crate::keys::{
    KeyError, KeyView, ResourceKey, ResourceList, canonical_text, key_well_formed, lemma_canonical_round_trip, list_prefix_text, parse_canonical_text,
};
use crate::paging::{cursor_view, page_desc_of, page_entries_desc};
use crate::text::{owned, str_from_utf8};

verus! {

/// Why stored key bytes do not name a resource.
#[derive(Clone, Copy, Debug, PartialEq, Eq, Structural)]
pub enum StoredKeyError {
    /// The bytes are not UTF-8.
    NotUtf8,
    /// The text is not a canonical key.
    Key(KeyError),
}

/// What reading stored key bytes gives.
pub open spec fn parse_key_bytes(bytes: Seq<u8>) -> Result<KeyView, StoredKeyError> {
    if !valid_utf8(bytes) {
        Err(StoredKeyError::NotUtf8)
    } else {
        match parse_canonical_text(decode_utf8(bytes)) {
            Ok(k) => Ok(k),
            Err(e) => Err(StoredKeyError::Key(e)),
        }
    }
}

/// The bytes a resource is stored under.
pub fn key_bytes(key: &ResourceKey) -> (b: Vec<u8>)
    ensures
        b@ == encode_utf8(canonical_text(key@)),
{
    let text = key.canonical();
    vstd::slice::slice_to_vec(text.as_str().as_bytes())
}

/// The bytes every stored child of a listing starts with.
pub fn prefix_bytes(list: &ResourceList) -> (b: Vec<u8>)
    ensures
        b@ == encode_utf8(list_prefix_text(list@)),
{
    let text = list.canonical_prefix();
    vstd::slice::slice_to_vec(text.as_str().as_bytes())
}

/// The resource stored under `bytes`.
pub fn parse_key(bytes: &[u8]) -> (r: Result<ResourceKey, StoredKeyError>)
    ensures
        match (r, parse_key_bytes(bytes@)) {
            (Ok(k), Ok(v)) => k@ == v,
            (Err(e), Err(f)) => e == f,
            _ => false,
        },
{
    match str_from_utf8(bytes) {
        Ok(text) => {
            proof {
                encode_utf8_decode_utf8(text@);
            }
            match ResourceKey::parse_canonical(text) {
                Ok(k) => Ok(k),
                Err(e) => Err(StoredKeyError::Key(e)),
            }
        },
        Err(_) => Err(StoredKeyError::NotUtf8),
    }
}

/// Reading the bytes a well-formed key is stored under gives the key back.
pub proof fn lemma_key_bytes_round_trip(k: KeyView)
    requires
        key_well_formed(k),
    ensures
        parse_key_bytes(encode_utf8(canonical_text(k))) == Ok::<KeyView, StoredKeyError>(k),
{
    encode_utf8_valid_utf8(canonical_text(k));
    encode_utf8_decode_utf8(canonical_text(k));
    lemma_canonical_round_trip(k);
}

/// `a` sorts before `b` bytewise, a proper prefix first.
pub open spec fn bytes_lt(a: Seq<u8>, b: Seq<u8>) -> bool
    decreases a.len(),
{
    if b.len() == 0 {
        false
    } else if a.len() == 0 {
        true
    } else if a[0] != b[0] {
        a[0] < b[0]
    } else {
        bytes_lt(a.drop_first(), b.drop_first())
    }
}

/// Whether `a < b` bytewise.
pub fn bytes_less(a: &[u8], b: &[u8]) -> (r: bool)
    ensures
        r == bytes_lt(a@, b@),
{
    let mut i: usize = 0;
    proof {
        assert(a@.skip(0) =~= a@);
        assert(b@.skip(0) =~= b@);
    }
    while i < a.len() && i < b.len()
        invariant
            i <= a.len(),
            i <= b.len(),
            bytes_lt(a@, b@) == bytes_lt(a@.skip(i as int), b@.skip(i as int)),
        decreases a.len() - i,
    {
        if a[i] != b[i] {
            proof {
                assert(a@.skip(i as int)[0] == a[i as int]);
                assert(b@.skip(i as int)[0] == b[i as int]);
            }
            return a[i] < b[i];
        }
        proof {
            assert(a@.skip(i as int).drop_first() =~= a@.skip(i + 1));
            assert(b@.skip(i as int).drop_first() =~= b@.skip(i + 1));
        }
        i += 1;
    }
    i < b.len()
}

/// Whether two byte strings are the same.
pub fn bytes_equal(a: &[u8], b: &[u8]) -> (r: bool)
    ensures
        r == (a@ == b@),
{
    if a.len() != b.len() {
        return false;
    }
    let mut i: usize = 0;
    while i < a.len()
        invariant
            i <= a.len(),
            a.len() == b.len(),
            forall|k: int| 0 <= k < i ==> a@[k] == b@[k],
        decreases a.len() - i,
    {
        if a[i] != b[i] {
            return false;
        }
        i += 1;
    }
    assert(a@ =~= b@);
    true
}

/// The plain value of bytes that may be missing.
pub open spec fn opt_bytes(v: Option<&[u8]>) -> Option<Seq<u8>> {
    match v {
        Some(b) => Some(b@),
        None => None,
    }
}

/// Whether a compare-and-swap writes: the key is absent and expected to be,
/// or it holds exactly the expected bytes.
pub fn swap_applies(current: Option<&[u8]>, expected: Option<&[u8]>) -> (r: bool)
    ensures
        r == (opt_bytes(current) == opt_bytes(expected)),
{
    match (current, expected) {
        (None, None) => true,
        (Some(c), Some(e)) => bytes_equal(c, e),
        _ => false,
    }
}

/// Whether a compare-and-delete deletes: the key holds exactly the expected
/// bytes.
pub fn delete_applies(current: Option<&[u8]>, expected: &[u8]) -> (r: bool)
    ensures
        r == (opt_bytes(current) == Some(expected@)),
{
    match current {
        Some(c) => bytes_equal(c, expected),
        None => false,
    }
}

/// What a scan does with a stored key.
#[derive(Clone, Copy, Debug, PartialEq, Eq, Structural)]
pub enum ScanStep {
    /// The key is past the listed prefix: the scan ends.
    Stop,
    /// The key is not below the cursor: it is passed over.
    Skip,
    /// The key is listed.
    Take,
}

/// What a scan over the keys with `prefix`, below `cursor` when given, does
/// with the stored key `raw`.
pub open spec fn scan_step_of(raw: Seq<u8>, prefix: Seq<u8>, cursor: Option<Seq<u8>>) -> ScanStep {
    if !(prefix.len() <= raw.len() && raw.take(prefix.len() as int) == prefix) {
        ScanStep::Stop
    } else {
        match cursor {
            Some(c) => if bytes_lt(raw, c) {
                ScanStep::Take
            } else {
                ScanStep::Skip
            },
            None => ScanStep::Take,
        }
    }
}

/// What a scan over the keys with `prefix`, below `cursor` when given, does
/// with the stored key `raw`.
pub fn scan_step(raw: &[u8], prefix: &[u8], cursor: Option<&[u8]>) -> (r: ScanStep)
    ensures
        r == scan_step_of(
            raw@,
            prefix@,
            match cursor {
                Some(c) => Some(c@),
                None => None,
            },
        ),
{
    if prefix.len() > raw.len() {
        return ScanStep::Stop;
    }
    let mut i: usize = 0;
    while i < prefix.len()
        invariant
            i <= prefix.len() <= raw.len(),
            forall|j: int| 0 <= j < i ==> raw@[j] == prefix@[j],
        decreases prefix.len() - i,
    {
        if raw[i] != prefix[i] {
            assert(raw@.take(prefix.len() as int)[i as int] != prefix@[i as int]);
            return ScanStep::Stop;
        }
        i += 1;
    }
    assert(raw@.take(prefix.len() as int) =~= prefix@);
    match cursor {
        Some(c) => if bytes_less(raw, c) {
            ScanStep::Take
        } else {
            ScanStep::Skip
        },
        None => ScanStep::Take,
    }
}

/// The listed entries of a scan over `scanned` (stored keys with values, in
/// scan order): keys with `prefix` until the first without it, passing over
/// those not below `cursor`, at most `limit` when given; the first key that
/// does not read back fails the scan.
pub open spec fn scan_listing<V>(
    scanned: Seq<(Seq<u8>, V)>,
    prefix: Seq<u8>,
    cursor: Option<Seq<u8>>,
    limit: Option<nat>,
) -> Result<Seq<(KeyView, V)>, StoredKeyError>
    decreases scanned.len(),
{
    if scanned.len() == 0 || limit == Some(0nat) {
        Ok(seq![])
    } else {
        match scan_step_of(scanned[0].0, prefix, cursor) {
            ScanStep::Stop => Ok(seq![]),
            ScanStep::Skip => scan_listing(scanned.drop_first(), prefix, cursor, limit),
            ScanStep::Take => match parse_key_bytes(scanned[0].0) {
                Err(e) => Err(e),
                Ok(k) => match scan_listing(
                    scanned.drop_first(),
                    prefix,
                    cursor,
                    match limit {
                        Some(l) => Some((l - 1) as nat),
                        None => None,
                    },
                ) {
                    Ok(rest) => Ok(seq![(k, scanned[0].1)] + rest),
                    Err(e) => Err(e),
                },
            },
        }
    }
}

/// The stored keys as bytes, with their values.
pub open spec fn scanned_view<V>(scanned: Seq<(Vec<u8>, V)>) -> Seq<(Seq<u8>, V)> {
    scanned.map_values(|e: (Vec<u8>, V)| (e.0@, e.1))
}

/// The listed entries with the keys as resource keys.
pub open spec fn listed_view<V>(listed: Seq<(ResourceKey, V)>) -> Seq<(KeyView, V)> {
    listed.map_values(|e: (ResourceKey, V)| (e.0@, e.1))
}

/// `acc` in front of what the rest of a scan lists.
pub open spec fn listed_after<V>(acc: Seq<(KeyView, V)>, rest: Result<Seq<(KeyView, V)>, StoredKeyError>) -> Result<
    Seq<(KeyView, V)>,
    StoredKeyError,
> {
    match rest {
        Ok(s) => Ok(acc + s),
        Err(e) => Err(e),
    }
}

/// Lists the entries of a scan over `scanned` (see [`scan_listing`]).
pub fn scan_entries<V>(
    scanned: Vec<(Vec<u8>, V)>,
    prefix: &[u8],
    cursor: Option<&[u8]>,
    limit: Option<usize>,
) -> (r: Result<Vec<(ResourceKey, V)>, StoredKeyError>)
    ensures
        match (r, scan_listing(
            scanned_view(scanned@),
            prefix@,
            match cursor {
                Some(c) => Some(c@),
                None => None,
            },
            match limit {
                Some(l) => Some(l as nat),
                None => None,
            },
        )) {
            (Ok(v), Ok(w)) => listed_view(v@) == w,
            (Err(e), Err(f)) => e == f,
            _ => false,
        },
{
    let ghost orig = scanned_view(scanned@);
    let ghost cur = match cursor {
        Some(c) => Some(c@),
        None => None,
    };
    let ghost lim = match limit {
        Some(l) => Some(l as nat),
        None => None,
    };
    let mut pending = scanned;
    let mut out: Vec<(ResourceKey, V)> = Vec::new();
    match limit {
        Some(l) => if l == 0 {
            return Ok(out);
        },
        None => {},
    }
    let ghost mut done: int = 0;
    proof {
        assert(scanned_view(pending@) =~= orig.skip(0));
        assert(listed_view(out@) =~= Seq::<(KeyView, V)>::empty());
        assert(listed_after(Seq::<(KeyView, V)>::empty(), scan_listing(orig, prefix@, cur, lim))
            =~= scan_listing(orig, prefix@, cur, lim)) by {
            match scan_listing(orig, prefix@, cur, lim) {
                Ok(s) => {
                    assert(Seq::<(KeyView, V)>::empty() + s =~= s);
                },
                Err(_) => {},
            }
        }
    }
    loop
        invariant_except_break
            0 <= done <= orig.len(),
            orig == scanned_view(scanned@),
            scanned_view(pending@) == orig.skip(done),
            lim == match limit {
                Some(l) => Some(l as nat),
                None => None,
            },
            cur == match cursor {
                Some(c) => Some(c@),
                None => None,
            },
            match limit {
                Some(l) => out@.len() < l,
                None => true,
            },
            scan_listing(orig, prefix@, cur, lim) == listed_after(
                listed_view(out@),
                scan_listing(
                    orig.skip(done),
                    prefix@,
                    cur,
                    match lim {
                        Some(l) => Some((l - out@.len()) as nat),
                        None => None,
                    },
                ),
            ),
        ensures
            scan_listing(orig, prefix@, cur, lim) == Ok::<Seq<(KeyView, V)>, StoredKeyError>(
                listed_view(out@),
            ),
        decreases pending.len(),
    {
        if pending.len() == 0 {
            proof {
                let rest = orig.skip(done);
                assert(rest.len() == 0);
                assert(listed_view(out@) + Seq::<(KeyView, V)>::empty() =~= listed_view(out@));
            }
            break;
        }
        let ghost prev = pending@;
        let (raw, value) = pending.remove(0);
        let ghost rest = orig.skip(done);
        proof {
            assert(pending@ =~= prev.drop_first());
            assert(scanned_view(pending@) =~= scanned_view(prev).drop_first());
            assert(scanned_view(prev)[0] == (raw@, value));
            assert(rest[0] == (raw@, value));
            assert(scanned_view(pending@) =~= orig.skip(done + 1));
            assert(rest.drop_first() =~= orig.skip(done + 1));
        }
        let step = scan_step(raw.as_slice(), prefix, cursor);
        match step {
            ScanStep::Stop => {
                proof {
                    assert(listed_view(out@) + Seq::<(KeyView, V)>::empty() =~= listed_view(out@));
                }
                break;
            },
            ScanStep::Skip => {},
            ScanStep::Take => {
                let key = match parse_key(raw.as_slice()) {
                    Ok(key) => key,
                    Err(e) => {
                        proof {
                            let lim2 = match lim {
                                Some(l) => Some((l - out@.len()) as nat),
                                None => None,
                            };
                            assert(lim2 != Some(0nat));
                            assert(scan_step_of(rest[0].0, prefix@, cur) == ScanStep::Take);
                            assert(parse_key_bytes(rest[0].0) == Err::<KeyView, StoredKeyError>(e));
                            assert(scan_listing(rest, prefix@, cur, lim2) == Err::<
                                Seq<(KeyView, V)>,
                                StoredKeyError,
                            >(e));
                            assert(scan_listing(orig, prefix@, cur, lim) == Err::<
                                Seq<(KeyView, V)>,
                                StoredKeyError,
                            >(e));
                        }
                        return Err(e);
                    },
                };
                let ghost before = listed_view(out@);
                out.push((key, value));
                proof {
                    assert(listed_view(out@) =~= before.push((key@, value)));
                    match scan_listing(
                        orig.skip(done + 1),
                        prefix@,
                        cur,
                        match lim {
                            Some(l) => Some((l - out@.len()) as nat),
                            None => None,
                        },
                    ) {
                        Ok(s) => {
                            assert(before + (seq![(key@, value)] + s) =~= listed_view(out@) + s);
                        },
                        Err(_) => {},
                    }
                }
                let full = match limit {
                    Some(l) => out.len() >= l,
                    None => false,
                };
                if full {
                    proof {
                        assert(listed_view(out@) + Seq::<(KeyView, V)>::empty() =~= listed_view(out@));
                    }
                    break;
                }
            },
        }
        proof {
            done = done + 1;
        }
    }
    Ok(out)
}

/// A paged listing was asked for without a resource kind.
#[derive(Clone, Copy, Debug, PartialEq, Eq, Structural)]
pub struct PageNeedsKind;

impl PageNeedsKind {
    /// A description of the error.
    pub fn message(&self) -> (r: String)
        ensures
            r@ == "paged resource listing requires an explicit resource kind"@,
    {
        owned("paged resource listing requires an explicit resource kind")
    }
}

// ---------------------------------------------------------------------------
// Pages ordered by name

/// Why a page could not be listed.
#[derive(Clone, Copy, Debug, PartialEq, Eq, Structural)]
pub enum PageError {
    /// A paged listing names no resource kind.
    NeedsKind,
    /// A stored key with the listing's prefix does not read back.
    Stored(StoredKeyError),
}

/// Whether `page` is a page of the children `w` (see [`page_desc_of`]).
pub open spec fn page_of_children(
    page: Seq<(ResourceKey, Vec<u8>)>,
    w: Seq<(KeyView, Vec<u8>)>,
    before: Option<Seq<char>>,
    limit: nat,
) -> bool {
    exists|children: Seq<(ResourceKey, Vec<u8>)>|
        listed_view(children) == w && #[trigger] page_desc_of(page, children, before, limit)
}

/// A page of `list`'s children out of `scanned`, the stored keys and values
/// in key order from the listing's prefix on: nothing for a page of no
/// entries; refused without a kind; else the children named below
/// `before_name` (an exclusive name cursor), greatest name first, at most
/// `limit` (see [`page_desc_of`]).
pub fn list_page(
    list: &ResourceList,
    before_name: Option<&str>,
    limit: usize,
    scanned: Vec<(Vec<u8>, Vec<u8>)>,
) -> (r: Result<Vec<(ResourceKey, Vec<u8>)>, PageError>)
    ensures
        limit == 0 ==> (r matches Ok(v) && v@.len() == 0),
        limit != 0 && list.kind is None ==> r matches Err(PageError::NeedsKind),
        limit != 0 && list.kind is Some ==> match (r, scan_listing(
            scanned_view(scanned@),
            encode_utf8(list_prefix_text(list@)),
            None,
            None,
        )) {
            (Ok(page), Ok(w)) => page_of_children(page@, w, cursor_view(before_name), limit as nat),
            (Err(PageError::Stored(e)), Err(f)) => e == f,
            _ => false,
        },
{
    if limit == 0 {
        return Ok(Vec::new());
    }
    if list.kind.is_none() {
        return Err(PageError::NeedsKind);
    }
    let prefix = prefix_bytes(list);
    let children = match scan_entries(scanned, prefix.as_slice(), None, None) {
        Ok(c) => c,
        Err(e) => {
            return Err(PageError::Stored(e));
        },
    };
    let ghost all = children@;
    proof {
        assert(scan_listing(scanned_view(scanned@), prefix@, None, None) == Ok::<
            Seq<(KeyView, Vec<u8>)>,
            StoredKeyError,
        >(listed_view(all)));
    }
    let page = page_entries_desc(children, before_name, limit);
    proof {
        assert(page_desc_of(page@, all, cursor_view(before_name), limit as nat));
        assert(page_of_children(page@, listed_view(all), cursor_view(before_name), limit as nat));
    }
    Ok(page)
}

} // verus!
