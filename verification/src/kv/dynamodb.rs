//! Item keys of the DynamoDB store.  The partition key `PK` holds the
//! namespace and parent path of a resource, the sort key `SK` its kind and
//! name, so that one query on a partition lists a parent's direct children.

use vstd::prelude::*;
use crate::keys::{KeyView, ResourceKey, ResourceList, namespace_word, no_slash};
use crate::text::{
    chars_match_at, chars_of, find_char, find_chars, first_index, first_occurrence, lemma_first_index,
    lemma_first_occurrence, occurs_at, owned, push_char, push_str, starts_with, string_of_range,
    sub_chars,
};
use crate::fields::{meta_map, metadata_insert};
use crate::paging::{text_less, text_lt};
use crate::text::str_eq;
use crate::urlcodec::{decode, encode, is_encoded_char, lemma_url_decode_encode, lemma_url_encode_chars, url_decode, url_encode};

verus! {

/// `/Resource/`, which separates namespace and parent path in `PK`.
pub open spec fn resource_sep() -> Seq<char> {
    seq!['/', 'R', 'e', 's', 'o', 'u', 'r', 'c', 'e', '/']
}

/// `Namespace/<encoded namespace>/Resource/<parent path>`.
pub open spec fn pk_text(namespace: Seq<char>, parent_path: Seq<char>) -> Seq<char> {
    namespace_word() + seq!['/'] + url_encode(namespace) + resource_sep() + parent_path
}

/// `<kind>/<name>`, the name unencoded.
pub open spec fn sk_text(kind: Seq<char>, name: Seq<char>) -> Seq<char> {
    kind + seq!['/'] + name
}

/// Why an item's keys do not name a resource.
#[derive(Clone, Copy, Debug, PartialEq, Eq, Structural)]
pub enum ItemKeyError {
    /// `PK` does not start with `Namespace/`.
    PkPrefix,
    /// `PK` has no `/Resource/`.
    PkSeparator,
    /// `SK` has no `/`.
    SkShape,
    /// The namespace in `PK` is not valid percent-encoded UTF-8.
    UndecodableNamespace,
}

/// The resource an item's `PK` and `SK` name.
pub open spec fn parse_pk_sk(pk: Seq<char>, sk: Seq<char>) -> Result<KeyView, ItemKeyError> {
    let p = namespace_word() + seq!['/'];
    if !starts_with(pk, p) {
        Err(ItemKeyError::PkPrefix)
    } else {
        let rest = pk.subrange(p.len() as int, pk.len() as int);
        match first_occurrence(rest, resource_sep()) {
            None => Err(ItemKeyError::PkSeparator),
            Some(j) => match first_index(sk, '/') {
                None => Err(ItemKeyError::SkShape),
                Some(i) => match url_decode(rest.subrange(0, j)) {
                    None => Err(ItemKeyError::UndecodableNamespace),
                    Some(namespace) => Ok(
                        KeyView {
                            namespace,
                            parent_path: rest.subrange(j + 10, rest.len() as int),
                            kind: sk.subrange(0, i),
                            name: sk.subrange(i + 1, sk.len() as int),
                        },
                    ),
                },
            },
        }
    }
}

/// The partition key of the children of `parent_path` in `namespace`.
pub fn pk_for_parent(namespace: &str, parent_path: &str) -> (s: String)
    ensures
        s@ == pk_text(namespace@, parent_path@),
{
    let mut s = owned("Namespace/");
    let encoded = encode(namespace);
    push_str(&mut s, encoded.as_str());
    push_str(&mut s, "/Resource/");
    push_str(&mut s, parent_path);
    proof {
        reveal_strlit("Namespace/");
        reveal_strlit("/Resource/");
        assert(s@ =~= pk_text(namespace@, parent_path@));
    }
    s
}

/// The partition key a resource is stored under.
pub fn pk_for_key(key: &ResourceKey) -> (s: String)
    ensures
        s@ == pk_text(key@.namespace, key@.parent_path),
{
    pk_for_parent(key.namespace.as_str(), key.parent_path.as_str())
}

/// The partition key that a listing queries.
pub fn pk_for_list(list: &ResourceList) -> (s: String)
    ensures
        s@ == pk_text(list@.parent.namespace, list@.parent.parent_path),
{
    pk_for_parent(list.parent.namespace.as_str(), list.parent.parent_path.as_str())
}

/// The sort key of a resource of `kind` named `name`.
pub fn sk_for_kind_name(kind: &str, name: &str) -> (s: String)
    ensures
        s@ == sk_text(kind@, name@),
{
    let mut s = owned(kind);
    push_char(&mut s, '/');
    push_str(&mut s, name);
    assert(s@ =~= sk_text(kind@, name@));
    s
}

/// The sort key a resource is stored under.
pub fn sk_for_key(key: &ResourceKey) -> (s: String)
    ensures
        s@ == sk_text(key@.kind, key@.name),
{
    sk_for_kind_name(key.kind.as_str(), key.name.as_str())
}

/// The sort key prefix shared by all resources of `kind`.
pub fn sk_prefix_for_kind(kind: &str) -> (s: String)
    ensures
        s@ == kind@ + seq!['/'],
{
    let mut s = owned(kind);
    push_char(&mut s, '/');
    s
}

/// The resource an item's `PK` and `SK` name.
pub fn resource_key_from_pk_sk(pk: &str, sk: &str) -> (r: Result<ResourceKey, ItemKeyError>)
    ensures
        match (r, parse_pk_sk(pk@, sk@)) {
            (Ok(k), Ok(v)) => k@ == v,
            (Err(e), Err(f)) => e == f,
            _ => false,
        },
{
    let pv = chars_of(pk);
    let prefix = chars_of("Namespace/");
    let sep = chars_of("/Resource/");
    proof {
        reveal_strlit("Namespace/");
        reveal_strlit("/Resource/");
        assert(prefix@ =~= namespace_word() + seq!['/']);
        assert(sep@ =~= resource_sep());
    }
    if !chars_match_at(&pv, 0, &prefix) {
        return Err(ItemKeyError::PkPrefix);
    }
    let rest = sub_chars(&pv, prefix.len(), pv.len());
    let j = match find_chars(&rest, &sep) {
        Some(j) => j,
        None => {
            return Err(ItemKeyError::PkSeparator);
        },
    };
    let sv = chars_of(sk);
    let i = match find_char(&sv, '/') {
        Some(i) => i,
        None => {
            return Err(ItemKeyError::SkShape);
        },
    };
    let encoded_ns = string_of_range(&rest, 0, j);
    let parent_path = string_of_range(&rest, j + 10, rest.len());
    let kind = string_of_range(&sv, 0, i);
    let name = string_of_range(&sv, i + 1, sv.len());
    let namespace = match decode(encoded_ns.as_str()) {
        Ok(n) => n,
        Err(_) => {
            return Err(ItemKeyError::UndecodableNamespace);
        },
    };
    Ok(ResourceKey { namespace, parent_path, kind, name })
}

/// Reading the keys an item of a resource is stored under gives the resource
/// back, whenever its kind holds no `/`.
pub proof fn lemma_pk_sk_round_trip(k: KeyView)
    requires
        no_slash(k.kind),
    ensures
        parse_pk_sk(pk_text(k.namespace, k.parent_path), sk_text(k.kind, k.name)) == Ok::<
            KeyView,
            ItemKeyError,
        >(k),
{
    let p = namespace_word() + seq!['/'];
    let enc = url_encode(k.namespace);
    let pk = pk_text(k.namespace, k.parent_path);
    let sk = sk_text(k.kind, k.name);
    assert(pk =~= p + (enc + resource_sep() + k.parent_path));
    assert(pk.subrange(0, p.len() as int) =~= p);
    let rest = pk.subrange(p.len() as int, pk.len() as int);
    assert(rest =~= enc + resource_sep() + k.parent_path);
    let n = enc.len() as int;
    assert(rest.subrange(n, n + 10) =~= resource_sep());
    lemma_url_encode_chars(k.namespace);
    assert forall|j: int| 0 <= j < n implies !occurs_at(rest, resource_sep(), j) by {
        assert(is_encoded_char(enc[j]));
        assert(rest[j] == enc[j]);
        if occurs_at(rest, resource_sep(), j) {
            assert(rest.subrange(j, j + 10)[0] == rest[j]);
        }
    }
    lemma_first_occurrence(rest, resource_sep(), n);
    assert(sk[k.kind.len() as int] == '/');
    assert forall|j: int| 0 <= j < k.kind.len() implies sk[j] != '/' by {
        assert(sk[j] == k.kind[j]);
    }
    lemma_first_index(sk, '/', k.kind.len() as int);
    assert(rest.subrange(0, n) =~= enc);
    assert(rest.subrange(n + 10, rest.len() as int) =~= k.parent_path);
    assert(sk.subrange(0, k.kind.len() as int) =~= k.kind);
    assert(sk.subrange(k.kind.len() as int + 1, sk.len() as int) =~= k.name);
    lemma_url_decode_encode(k.namespace);
}

/// The partition key attribute.
pub const PK_ATTR: &'static str = "PK";

/// The sort key attribute.
pub const SK_ATTR: &'static str = "SK";

/// The attribute holding the serialized resource.
pub const VALUE_ATTR: &'static str = "Value";

/// An attribute value as the store writes and reads them.
#[derive(Clone, Debug)]
pub enum ItemValue {
    /// A string.
    S(String),
    /// Bytes.
    B(Vec<u8>),
}

/// The value of attribute `attr` in `item`, if any (the first pair of it).
pub open spec fn item_attr(item: Seq<(String, ItemValue)>, attr: Seq<char>) -> Option<ItemValue>
    decreases item.len(),
{
    if item.len() == 0 {
        None
    } else if item[0].0@ == attr {
        Some(item[0].1)
    } else {
        item_attr(item.drop_first(), attr)
    }
}

/// The key attributes of the item of `key`.
pub fn key_item(key: &ResourceKey) -> (r: Vec<(String, ItemValue)>)
    ensures
        r@.len() == 2,
        r@[0].0@ == PK_ATTR@,
        r@[0].1 matches ItemValue::S(pk) && pk@ == pk_text(key@.namespace, key@.parent_path),
        r@[1].0@ == SK_ATTR@,
        r@[1].1 matches ItemValue::S(sk) && sk@ == sk_text(key@.kind, key@.name),
{
    let mut r: Vec<(String, ItemValue)> = Vec::new();
    r.push((owned(PK_ATTR), ItemValue::S(pk_for_key(key))));
    r.push((owned(SK_ATTR), ItemValue::S(sk_for_key(key))));
    r
}

/// The item that stores `value` under `key`.
pub fn put_item(key: &ResourceKey, value: &[u8]) -> (r: Vec<(String, ItemValue)>)
    ensures
        r@.len() == 3,
        r@[0].0@ == PK_ATTR@,
        r@[0].1 matches ItemValue::S(pk) && pk@ == pk_text(key@.namespace, key@.parent_path),
        r@[1].0@ == SK_ATTR@,
        r@[1].1 matches ItemValue::S(sk) && sk@ == sk_text(key@.kind, key@.name),
        r@[2].0@ == VALUE_ATTR@,
        r@[2].1 matches ItemValue::B(b) && b@ == value@,
{
    let mut r = key_item(key);
    r.push((owned(VALUE_ATTR), ItemValue::B(vstd::slice::slice_to_vec(value))));
    r
}

/// Why an item does not hold a stored resource.
#[derive(Clone, Debug)]
pub enum ItemError {
    /// The item lacks the attribute.
    Missing { attr: String },
    /// The attribute is not a string.
    NotString { attr: String },
    /// The attribute is not bytes.
    NotBinary { attr: String },
    /// The keys do not name a resource.
    Key(ItemKeyError),
}

/// The description of an item error.
pub open spec fn item_error_text(e: ItemError) -> Seq<char> {
    match e {
        ItemError::Missing { attr } => "DynamoDB item missing "@ + attr@ + " attribute"@,
        ItemError::NotString { attr } => "DynamoDB item attribute "@ + attr@ + " was not a string"@,
        ItemError::NotBinary { attr } => "DynamoDB item attribute "@ + attr@ + " was not binary"@,
        ItemError::Key(ItemKeyError::PkPrefix) => "DynamoDB PK does not start with Namespace/"@,
        ItemError::Key(ItemKeyError::PkSeparator) => "DynamoDB PK is missing /Resource/ separator"@,
        ItemError::Key(ItemKeyError::SkShape) => "DynamoDB SK must contain kind/name"@,
        ItemError::Key(ItemKeyError::UndecodableNamespace) => "failed to decode DynamoDB key segment"@,
    }
}

impl ItemError {
    /// A description of the error.
    pub fn message(&self) -> (r: String)
        ensures
            r@ == item_error_text(*self),
    {
        let mut m = String::new();
        match self {
            ItemError::Missing { attr } => {
                push_str(&mut m, "DynamoDB item missing ");
                push_str(&mut m, attr.as_str());
                push_str(&mut m, " attribute");
            },
            ItemError::NotString { attr } => {
                push_str(&mut m, "DynamoDB item attribute ");
                push_str(&mut m, attr.as_str());
                push_str(&mut m, " was not a string");
            },
            ItemError::NotBinary { attr } => {
                push_str(&mut m, "DynamoDB item attribute ");
                push_str(&mut m, attr.as_str());
                push_str(&mut m, " was not binary");
            },
            ItemError::Key(ItemKeyError::PkPrefix) => {
                push_str(&mut m, "DynamoDB PK does not start with Namespace/");
            },
            ItemError::Key(ItemKeyError::PkSeparator) => {
                push_str(&mut m, "DynamoDB PK is missing /Resource/ separator");
            },
            ItemError::Key(ItemKeyError::SkShape) => {
                push_str(&mut m, "DynamoDB SK must contain kind/name");
            },
            ItemError::Key(ItemKeyError::UndecodableNamespace) => {
                push_str(&mut m, "failed to decode DynamoDB key segment");
            },
        }
        m
    }
}

fn find_attr<'a>(item: &'a Vec<(String, ItemValue)>, attr: &str) -> (r: Option<&'a ItemValue>)
    ensures
        match r {
            Some(v) => item_attr(item@, attr@) == Some(*v),
            None => item_attr(item@, attr@) is None,
        },
{
    let mut i: usize = 0;
    assert(item@.skip(0) =~= item@);
    while i < item.len()
        invariant
            i <= item.len(),
            item_attr(item@, attr@) == item_attr(item@.skip(i as int), attr@),
        decreases item.len() - i,
    {
        assert(item@.skip(i as int).drop_first() =~= item@.skip(i + 1));
        if str_eq(item[i].0.as_str(), attr) {
            return Some(&item[i].1);
        }
        i += 1;
    }
    None
}

/// The string attribute `attr` of `item`.
pub fn string_attr<'a>(item: &'a Vec<(String, ItemValue)>, attr: &str) -> (r: Result<&'a str, ItemError>)
    ensures
        match item_attr(item@, attr@) {
            Some(ItemValue::S(s)) => r matches Ok(t) && t@ == s@,
            Some(ItemValue::B(_)) => r matches Err(ItemError::NotString { attr: a }) && a@ == attr@,
            None => r matches Err(ItemError::Missing { attr: a }) && a@ == attr@,
        },
{
    match find_attr(item, attr) {
        Some(ItemValue::S(s)) => Ok(s.as_str()),
        Some(ItemValue::B(_)) => Err(ItemError::NotString { attr: owned(attr) }),
        None => Err(ItemError::Missing { attr: owned(attr) }),
    }
}

/// The resource an item is stored under.
pub fn key_from_item(item: &Vec<(String, ItemValue)>) -> (r: Result<ResourceKey, ItemError>)
    ensures
        match (item_attr(item@, PK_ATTR@), item_attr(item@, SK_ATTR@)) {
            (Some(ItemValue::S(pk)), Some(ItemValue::S(sk))) => match (r, parse_pk_sk(pk@, sk@)) {
                (Ok(k), Ok(v)) => k@ == v,
                (Err(ItemError::Key(e)), Err(f)) => e == f,
                _ => false,
            },
            _ => r is Err,
        },
{
    let pk = match string_attr(item, PK_ATTR) {
        Ok(pk) => pk,
        Err(e) => {
            return Err(e);
        },
    };
    let sk = match string_attr(item, SK_ATTR) {
        Ok(sk) => sk,
        Err(e) => {
            return Err(e);
        },
    };
    match resource_key_from_pk_sk(pk, sk) {
        Ok(k) => Ok(k),
        Err(e) => Err(ItemError::Key(e)),
    }
}

/// The stored bytes of an item.
pub fn value_from_item(item: &Vec<(String, ItemValue)>) -> (r: Result<Vec<u8>, ItemError>)
    ensures
        match item_attr(item@, VALUE_ATTR@) {
            Some(ItemValue::B(b)) => r matches Ok(v) && v@ == b@,
            Some(ItemValue::S(_)) => r matches Err(ItemError::NotBinary { attr: a }) && a@ == VALUE_ATTR@,
            None => r matches Err(ItemError::Missing { attr: a }) && a@ == VALUE_ATTR@,
        },
{
    match find_attr(item, VALUE_ATTR) {
        Some(ItemValue::B(b)) => Ok(vstd::slice::slice_to_vec(b.as_slice())),
        Some(ItemValue::S(_)) => Err(ItemError::NotBinary { attr: owned(VALUE_ATTR) }),
        None => Err(ItemError::Missing { attr: owned(VALUE_ATTR) }),
    }
}

/// A query of a partition: its key condition, attribute names and string
/// values, and its direction.
#[derive(Clone, Debug)]
pub struct QueryPlan {
    pub key_condition: String,
    pub names: Vec<(String, String)>,
    pub values: Vec<(String, String)>,
    pub scan_forward: bool,
}

/// A name cursor was given without a resource kind.
#[derive(Clone, Copy, Debug, PartialEq, Eq, Structural)]
pub struct CursorWithoutKind;

impl CursorWithoutKind {
    /// A description of the error.
    pub fn message(&self) -> (r: String)
        ensures
            r@ == "dynamodb list pagination requires a resource kind when before_name is set"@,
    {
        owned("dynamodb list pagination requires a resource kind when before_name is set")
    }
}

/// The key condition of a listing query.
pub open spec fn key_condition_text(has_kind: bool, has_cursor: bool) -> Seq<char> {
    if has_kind && has_cursor {
        "#pk = :pk AND #sk BETWEEN :sk_prefix AND :before_sk"@
    } else if has_kind {
        "#pk = :pk AND begins_with(#sk, :sk_prefix)"@
    } else {
        "#pk = :pk"@
    }
}

/// The query that lists `list`, below `before_name` when given, at most
/// `limit` rows when given: newest first when either is given.  A cursor
/// needs a kind.
pub fn query_plan(list: &ResourceList, before_name: Option<&str>, limit: Option<usize>) -> (r: Result<
    QueryPlan,
    CursorWithoutKind,
>)
    ensures
        (before_name is Some && list.kind is None) <==> r is Err,
        r matches Ok(plan) ==> {
            &&& plan.key_condition@ == key_condition_text(list.kind is Some, before_name is Some)
            &&& plan.scan_forward == !(before_name is Some || limit is Some)
            &&& meta_map(plan.names@) == match list.kind {
                Some(_) => map!["#pk"@ => PK_ATTR@, "#sk"@ => SK_ATTR@],
                None => map!["#pk"@ => PK_ATTR@],
            }
            &&& meta_map(plan.values@) == match (list.kind, before_name) {
                (Some(k), Some(b)) => map![
                    ":pk"@ => pk_text(list@.parent.namespace, list@.parent.parent_path),
                    ":sk_prefix"@ => k@ + seq!['/'],
                    ":before_sk"@ => sk_text(k@, b@),
                ],
                (Some(k), None) => map![
                    ":pk"@ => pk_text(list@.parent.namespace, list@.parent.parent_path),
                    ":sk_prefix"@ => k@ + seq!['/'],
                ],
                _ => map![":pk"@ => pk_text(list@.parent.namespace, list@.parent.parent_path)],
            }
        },
{
    let mut names: Vec<(String, String)> = Vec::new();
    let mut values: Vec<(String, String)> = Vec::new();
    metadata_insert(&mut names, "#pk", PK_ATTR);
    let pk = pk_for_list(list);
    metadata_insert(&mut values, ":pk", pk.as_str());
    let key_condition = match (&list.kind, before_name) {
        (Some(kind), before) => {
            metadata_insert(&mut names, "#sk", SK_ATTR);
            let prefix = sk_prefix_for_kind(kind.as_str());
            metadata_insert(&mut values, ":sk_prefix", prefix.as_str());
            match before {
                Some(b) => {
                    let before_sk = sk_for_kind_name(kind.as_str(), b);
                    metadata_insert(&mut values, ":before_sk", before_sk.as_str());
                    owned("#pk = :pk AND #sk BETWEEN :sk_prefix AND :before_sk")
                },
                None => owned("#pk = :pk AND begins_with(#sk, :sk_prefix)"),
            }
        },
        (None, Some(_)) => {
            return Err(CursorWithoutKind);
        },
        (None, None) => owned("#pk = :pk"),
    };
    proof {
        assert(meta_map(Seq::<(String, String)>::empty()) =~= Map::<Seq<char>, Seq<char>>::empty());
    }
    let plan = QueryPlan {
        key_condition,
        names,
        values,
        scan_forward: !(before_name.is_some() || limit.is_some()),
    };
    proof {
        assert(meta_map(plan.names@) =~= match list.kind {
            Some(_) => map!["#pk"@ => PK_ATTR@, "#sk"@ => SK_ATTR@],
            None => map!["#pk"@ => PK_ATTR@],
        });
        assert(meta_map(plan.values@) =~= match (list.kind, before_name) {
            (Some(k), Some(b)) => map![
                ":pk"@ => pk_text(list@.parent.namespace, list@.parent.parent_path),
                ":sk_prefix"@ => k@ + seq!['/'],
                ":before_sk"@ => sk_text(k@, b@),
            ],
            (Some(k), None) => map![
                ":pk"@ => pk_text(list@.parent.namespace, list@.parent.parent_path),
                ":sk_prefix"@ => k@ + seq!['/'],
            ],
            _ => map![":pk"@ => pk_text(list@.parent.namespace, list@.parent.parent_path)],
        });
    }
    Ok(plan)
}

/// What to do before the next query page.
#[derive(Clone, Copy, Debug, PartialEq, Eq, Structural)]
pub enum PageRequest {
    /// Enough rows were collected.
    Done,
    /// Query the next page, asking for at most so many items when given.
    Fetch(Option<i32>),
}

/// What to do before the next query page, with `collected` rows of at most
/// `limit` so far: pages ask for the rows still missing, at most 1000.
pub fn page_request(limit: Option<usize>, collected: usize) -> (r: PageRequest)
    ensures
        match limit {
            None => r == PageRequest::Fetch(None),
            Some(l) => if collected == l {
                r == PageRequest::Done
            } else if collected < l {
                r == PageRequest::Fetch(Some((if l - collected < 1000 { l - collected } else { 1000 }) as i32))
            } else {
                r == PageRequest::Fetch(Some(1000))
            },
        },
{
    match limit {
        None => PageRequest::Fetch(None),
        Some(l) => {
            let remaining = match l.checked_sub(collected) {
                Some(rem) => rem,
                None => usize::MAX,
            };
            if remaining == 0 {
                return PageRequest::Done;
            }
            let page: usize = if remaining < 1000 {
                remaining
            } else {
                1000
            };
            PageRequest::Fetch(Some(page as i32))
        },
    }
}

/// Adds a queried row unless its name is not before the cursor; whether
/// `limit` rows are now collected.
pub fn take_query_row(
    rows: &mut Vec<(ResourceKey, Option<Vec<u8>>)>,
    key: ResourceKey,
    value: Option<Vec<u8>>,
    before_name: Option<&str>,
    limit: Option<usize>,
) -> (done: bool)
    ensures
        ({
            let kept = match before_name {
                Some(b) => text_lt(key.name@, b@),
                None => true,
            };
            &&& kept ==> final(rows)@ == old(rows)@.push((key, value))
            &&& !kept ==> final(rows)@ == old(rows)@
            &&& done == (kept && match limit {
                Some(l) => final(rows)@.len() >= l,
                None => false,
            })
        }),
{
    let keep = match before_name {
        Some(b) => text_less(key.name.as_str(), b),
        None => true,
    };
    if !keep {
        return false;
    }
    rows.push((key, value));
    match limit {
        Some(l) => rows.len() >= l,
        None => false,
    }
}

/// The rows that hold a value, with it, in order.
pub open spec fn rows_values(rows: Seq<(ResourceKey, Option<Vec<u8>>)>) -> Seq<(ResourceKey, Vec<u8>)>
    decreases rows.len(),
{
    if rows.len() == 0 {
        seq![]
    } else {
        match rows.last().1 {
            Some(v) => rows_values(rows.drop_last()).push((rows.last().0, v)),
            None => rows_values(rows.drop_last()),
        }
    }
}

/// The rows that hold a value, with it, in order.
pub fn rows_with_values(rows: Vec<(ResourceKey, Option<Vec<u8>>)>) -> (r: Vec<(ResourceKey, Vec<u8>)>)
    ensures
        r@ == rows_values(rows@),
{
    let ghost orig = rows@;
    let mut rows = rows;
    let mut out: Vec<(ResourceKey, Vec<u8>)> = Vec::new();
    let ghost mut done: int = 0;
    proof {
        assert(orig.skip(0) =~= orig);
        assert(orig.take(0) =~= Seq::<(ResourceKey, Option<Vec<u8>>)>::empty());
    }
    while rows.len() > 0
        invariant
            0 <= done <= orig.len(),
            rows@ == orig.skip(done),
            out@ == rows_values(orig.take(done)),
        decreases rows.len(),
    {
        let (key, value) = rows.remove(0);
        proof {
            assert(orig[done] == (key, value));
            assert(rows@ =~= orig.skip(done + 1));
            assert(orig.take(done + 1).drop_last() =~= orig.take(done));
            assert(orig.take(done + 1).last() == (key, value));
        }
        match value {
            Some(v) => {
                out.push((key, v));
            },
            None => {},
        }
        proof {
            done = done + 1;
        }
    }
    proof {
        assert(orig.take(done) =~= orig);
    }
    out
}

/// The condition of a conditional write: the stored value must be the
/// expected one, or, without one, no item may exist.
#[derive(Clone, Debug)]
pub struct SwapCondition {
    pub expression: String,
    pub names: Vec<(String, String)>,
    /// The value bound to `:expected`, when there is one.
    pub expected: Option<Vec<u8>>,
}

/// The condition under which a compare-and-swap writes.
pub fn swap_condition(expected: Option<&[u8]>) -> (r: SwapCondition)
    ensures
        match expected {
            Some(e) => {
                &&& r.expression@ == "#value = :expected"@
                &&& meta_map(r.names@) == map!["#value"@ => VALUE_ATTR@]
                &&& r.expected matches Some(v) && v@ == e@
            },
            None => {
                &&& r.expression@ == "attribute_not_exists(#pk)"@
                &&& meta_map(r.names@) == map!["#pk"@ => PK_ATTR@]
                &&& r.expected is None
            },
        },
{
    let mut names: Vec<(String, String)> = Vec::new();
    proof {
        assert(meta_map(Seq::<(String, String)>::empty()) =~= Map::<Seq<char>, Seq<char>>::empty());
    }
    match expected {
        Some(e) => {
            metadata_insert(&mut names, "#value", VALUE_ATTR);
            assert(meta_map(names@) =~= map!["#value"@ => VALUE_ATTR@]);
            SwapCondition {
                expression: owned("#value = :expected"),
                names,
                expected: Some(vstd::slice::slice_to_vec(e)),
            }
        },
        None => {
            metadata_insert(&mut names, "#pk", PK_ATTR);
            assert(meta_map(names@) =~= map!["#pk"@ => PK_ATTR@]);
            SwapCondition { expression: owned("attribute_not_exists(#pk)"), names, expected: None }
        },
    }
}

} // verus!
