//! Structured resource keys.
//!
//! A key names a resource by namespace, the chain of parent resources and
//! its own kind and name.  Its canonical text is
//! `@Namespace/<namespace>/<parent path>/@/<kind>/<encoded name>`, where the
//! parent path is a `/`-separated list of `<kind>/<encoded name>` pairs and
//! names are percent-encoded so that they never contain `/`.  Listing the
//! direct children of a parent uses the prefix of that text up to `@/`.

use vstd::prelude::*;
use crate::digest::{hex_lower, sha256_digest, sha256_hex};
use crate::text::{
    ascii_alphanumeric, blank, chars_eq, is_ascii_alphanumeric, is_blank, ascii_lower, to_ascii_lower, trim_chars, trim_text,
    chars_match_at, chars_of, find_char, find_chars, first_index, first_occurrence, owned,
    push_char, push_str, split_chars, split_on, starts_with, string_of, string_of_range, sub_chars,
    views_of, lemma_first_index, lemma_first_occurrence, lemma_split_on_at, lemma_split_on_none,
    occurs_at,
};
use crate::urlcodec::{
    decode, encode, is_encoded_char, lemma_url_decode_encode, lemma_url_encode_chars, url_decode,
    url_encode,
};
use crate::ns;
use vstd::utf8::encode_utf8;

verus! {

/// One `kind/name` step of a resource path.
#[derive(Clone, Debug, Eq, PartialEq, Hash, Ord, PartialOrd)]
pub struct ResourceSegment {
    pub kind: String,
    pub name: String,
}

/// A namespace plus the path of the resource whose children are meant.
#[derive(Clone, Debug, Eq, PartialEq, Hash, Ord, PartialOrd)]
pub struct ResourceParent {
    pub namespace: String,
    pub parent_path: String,
}

/// A resource: its parent and its own kind and (unencoded) name.
#[derive(Clone, Debug, Eq, PartialEq, Hash, Ord, PartialOrd)]
pub struct ResourceKey {
    pub namespace: String,
    pub parent_path: String,
    pub kind: String,
    pub name: String,
}

/// The direct children of a parent, optionally of one kind only.
#[derive(Clone, Debug, Eq, PartialEq, Hash)]
pub struct ResourceList {
    pub parent: ResourceParent,
    pub kind: Option<String>,
}

/// Model of a [`ResourceSegment`].
pub struct SegmentView {
    pub kind: Seq<char>,
    pub name: Seq<char>,
}

/// Model of a [`ResourceParent`].
pub struct ParentView {
    pub namespace: Seq<char>,
    pub parent_path: Seq<char>,
}

/// Model of a [`ResourceKey`].
pub struct KeyView {
    pub namespace: Seq<char>,
    pub parent_path: Seq<char>,
    pub kind: Seq<char>,
    pub name: Seq<char>,
}

/// Model of a [`ResourceList`].
pub struct ListView {
    pub parent: ParentView,
    pub kind: Option<Seq<char>>,
}

impl View for ResourceSegment {
    type V = SegmentView;

    open spec fn view(&self) -> SegmentView {
        SegmentView { kind: self.kind@, name: self.name@ }
    }
}

impl View for ResourceParent {
    type V = ParentView;

    open spec fn view(&self) -> ParentView {
        ParentView { namespace: self.namespace@, parent_path: self.parent_path@ }
    }
}

impl View for ResourceKey {
    type V = KeyView;

    open spec fn view(&self) -> KeyView {
        KeyView {
            namespace: self.namespace@,
            parent_path: self.parent_path@,
            kind: self.kind@,
            name: self.name@,
        }
    }
}

impl View for ResourceList {
    type V = ListView;

    open spec fn view(&self) -> ListView {
        ListView {
            parent: self.parent@,
            kind: match self.kind {
                Some(k) => Some(k@),
                None => None,
            },
        }
    }
}

/// `@Namespace`, the first component of every canonical key.
pub open spec fn ns_prefix() -> Seq<char> {
    seq!['@', 'N', 'a', 'm', 'e', 's', 'p', 'a', 'c', 'e']
}

/// `@`, the component that separates the parent path from the leaf.
pub open spec fn direct_child_sep() -> Seq<char> {
    seq!['@']
}

/// `kind/<encoded name>`.
pub open spec fn pair_text(kind: Seq<char>, name: Seq<char>) -> Seq<char> {
    kind + seq!['/'] + url_encode(name)
}

/// The views of a slice of `(kind, name)` pairs.
pub open spec fn pairs_view(pairs: Seq<(&str, &str)>) -> Seq<(Seq<char>, Seq<char>)> {
    pairs.map_values(|p: (&str, &str)| (p.0@, p.1@))
}

/// The pairs of a parent chain joined by `/`.
pub open spec fn path_text(pairs: Seq<(Seq<char>, Seq<char>)>) -> Seq<char>
    decreases pairs.len(),
{
    if pairs.len() == 0 {
        seq![]
    } else if pairs.len() == 1 {
        pair_text(pairs[0].0, pairs[0].1)
    } else {
        path_text(pairs.drop_last()) + seq!['/'] + pair_text(pairs.last().0, pairs.last().1)
    }
}

/// `path` followed by `/`, or nothing for the empty path.
pub open spec fn path_slash(path: Seq<char>) -> Seq<char> {
    if path.len() == 0 {
        seq![]
    } else {
        path + seq!['/']
    }
}

/// The canonical text of a key.
pub open spec fn canonical_text(k: KeyView) -> Seq<char> {
    ns_prefix() + seq!['/'] + k.namespace + seq!['/'] + path_slash(k.parent_path)
        + direct_child_sep() + seq!['/'] + pair_text(k.kind, k.name)
}

/// The parent path of the children of `parent_path` that are `kind/name`.
pub open spec fn child_path(parent_path: Seq<char>, kind: Seq<char>, name: Seq<char>) -> Seq<char> {
    path_slash(parent_path) + pair_text(kind, name)
}

/// The key seen as the parent of its own children.
pub open spec fn key_as_parent(k: KeyView) -> ParentView {
    ParentView {
        namespace: k.namespace,
        parent_path: child_path(k.parent_path, k.kind, k.name),
    }
}

/// The text every canonical key of a listed child starts with.
pub open spec fn list_prefix_text(l: ListView) -> Seq<char> {
    let base = ns_prefix() + seq!['/'] + l.parent.namespace + seq!['/'] + path_slash(
        l.parent.parent_path,
    ) + direct_child_sep() + seq!['/'];
    match l.kind {
        Some(kind) => base + kind + seq!['/'],
        None => base,
    }
}

/// `key` is a direct child listed by `l`.
pub open spec fn list_matches(l: ListView, key: KeyView) -> bool {
    &&& key.namespace == l.parent.namespace
    &&& key.parent_path == l.parent.parent_path
    &&& match l.kind {
        Some(kind) => key.kind == kind,
        None => true,
    }
}

/// Appends `@Namespace` to `s`.
fn push_ns_prefix(s: &mut String)
    ensures
        final(s)@ == old(s)@ + ns_prefix(),
{
    push_str(s, "@Namespace");
    proof {
        reveal_strlit("@Namespace");
        assert("@Namespace"@ =~= ns_prefix());
    }
}

/// `kind/<encoded name>`.
fn pair(kind: &str, name: &str) -> (s: String)
    ensures
        s@ == pair_text(kind@, name@),
{
    let mut s = owned(kind);
    push_char(&mut s, '/');
    let encoded = encode(name);
    push_str(&mut s, encoded.as_str());
    assert(s@ =~= pair_text(kind@, name@));
    s
}

/// The pairs of a parent chain joined by `/`.
fn path(pairs: &[(&str, &str)]) -> (s: String)
    ensures
        s@ == path_text(pairs_view(pairs@)),
{
    let mut s = String::new();
    let mut i: usize = 0;
    while i < pairs.len()
        invariant
            i <= pairs@.len(),
            s@ == path_text(pairs_view(pairs@).take(i as int)),
        decreases pairs.len() - i,
    {
        let (kind, name) = pairs[i];
        let p = pair(kind, name);
        let ghost before = s@;
        let ghost taken = pairs_view(pairs@).take(i as int + 1);
        if i > 0 {
            push_char(&mut s, '/');
        }
        push_str(&mut s, p.as_str());
        i += 1;
        proof {
            assert(taken.drop_last() =~= pairs_view(pairs@).take(i - 1));
            assert(taken.last() == (kind@, name@));
            if i == 1 {
                assert(before =~= seq![]);
                assert(s@ =~= path_text(taken));
            } else {
                assert(s@ =~= path_text(taken));
            }
        }
    }
    assert(pairs_view(pairs@).take(pairs@.len() as int) =~= pairs_view(pairs@));
    s
}

impl ResourceSegment {
    /// A segment with the given kind and name.
    pub fn new(kind: &str, name: &str) -> (s: Self)
        ensures
            s@ == (SegmentView { kind: kind@, name: name@ }),
    {
        ResourceSegment { kind: owned(kind), name: owned(name) }
    }
}

impl ResourceParent {
    /// The top of `namespace`.
    pub fn root(namespace: &str) -> (p: Self)
        ensures
            p@ == (ParentView { namespace: namespace@, parent_path: seq![] }),
    {
        ResourceParent { namespace: owned(namespace), parent_path: String::new() }
    }

    /// The children of the resource `kind/name` below this parent.
    pub fn child(&self, kind: &str, name: &str) -> (p: Self)
        ensures
            p@ == (ParentView {
                namespace: self.namespace@,
                parent_path: child_path(self.parent_path@, kind@, name@),
            }),
    {
        let segment = pair(kind, name);
        let parent_path = if self.parent_path.as_str().is_empty() {
            segment
        } else {
            let mut p = self.parent_path.clone();
            push_char(&mut p, '/');
            push_str(&mut p, segment.as_str());
            p
        };
        let p = ResourceParent { namespace: self.namespace.clone(), parent_path };
        assert(p@.parent_path =~= child_path(self.parent_path@, kind@, name@));
        p
    }

    /// The listing of this parent's children, of `kind` when given.
    pub fn list(&self, kind: Option<&str>) -> (l: ResourceList)
        ensures
            l@ == (ListView {
                parent: self@,
                kind: match kind {
                    Some(k) => Some(k@),
                    None => None,
                },
            }),
    {
        let kind = match kind {
            Some(k) => Some(owned(k)),
            None => None,
        };
        ResourceList {
            parent: ResourceParent {
                namespace: self.namespace.clone(),
                parent_path: self.parent_path.clone(),
            },
            kind,
        }
    }
}

impl ResourceKey {
    /// The key of `kind/name` below the chain `parent` in `namespace`.
    pub fn new(namespace: &str, parent: &[(&str, &str)], kind: &str, name: &str) -> (k: Self)
        ensures
            k@ == (KeyView {
                namespace: namespace@,
                parent_path: path_text(pairs_view(parent@)),
                kind: kind@,
                name: name@,
            }),
    {
        ResourceKey {
            namespace: owned(namespace),
            parent_path: path(parent),
            kind: owned(kind),
            name: owned(name),
        }
    }

    /// This key seen as the parent of its own children.
    pub fn as_parent(&self) -> (p: ResourceParent)
        ensures
            p@ == key_as_parent(self@),
    {
        let segment = pair(self.kind.as_str(), self.name.as_str());
        let parent_path = if self.parent_path.as_str().is_empty() {
            segment
        } else {
            let mut p = self.parent_path.clone();
            push_char(&mut p, '/');
            push_str(&mut p, segment.as_str());
            p
        };
        let p = ResourceParent { namespace: self.namespace.clone(), parent_path };
        assert(p@.parent_path =~= key_as_parent(self@).parent_path);
        p
    }

    /// The canonical text of this key.
    pub fn canonical(&self) -> (s: String)
        ensures
            s@ == canonical_text(self@),
    {
        let mut s = String::new();
        push_ns_prefix(&mut s);
        push_char(&mut s, '/');
        push_str(&mut s, self.namespace.as_str());
        push_char(&mut s, '/');
        if !self.parent_path.as_str().is_empty() {
            push_str(&mut s, self.parent_path.as_str());
            push_char(&mut s, '/');
        }
        push_char(&mut s, '@');
        push_char(&mut s, '/');
        let leaf = pair(self.kind.as_str(), self.name.as_str());
        push_str(&mut s, leaf.as_str());
        assert(s@ =~= canonical_text(self@));
        s
    }
}

impl ResourceList {
    /// Whether `key` is a direct child listed here.
    pub fn matches(&self, key: &ResourceKey) -> (r: bool)
        ensures
            r == list_matches(self@, key@),
    {
        key.namespace == self.parent.namespace && key.parent_path == self.parent.parent_path
            && match &self.kind {
            Some(kind) => key.kind == *kind,
            None => true,
        }
    }

    /// The text that the canonical keys of all listed children start with.
    pub fn canonical_prefix(&self) -> (s: String)
        ensures
            s@ == list_prefix_text(self@),
    {
        let mut s = String::new();
        push_ns_prefix(&mut s);
        push_char(&mut s, '/');
        push_str(&mut s, self.parent.namespace.as_str());
        push_char(&mut s, '/');
        if !self.parent.parent_path.as_str().is_empty() {
            push_str(&mut s, self.parent.parent_path.as_str());
            push_char(&mut s, '/');
        }
        push_char(&mut s, '@');
        push_char(&mut s, '/');
        match &self.kind {
            Some(kind) => {
                push_str(&mut s, kind.as_str());
                push_char(&mut s, '/');
            },
            None => {},
        }
        assert(s@ =~= list_prefix_text(self@));
        s
    }
}

/// Why a key or path text could not be read.
#[derive(Clone, Copy, Debug, PartialEq, Eq, Structural)]
pub enum KeyError {
    /// The key does not start with `@Namespace/`.
    MissingNamespacePrefix,
    /// No `/` ends the namespace.
    MissingNamespaceSeparator,
    /// No `@/` separates the parent path from the leaf.
    MissingDirectChildSeparator,
    /// A path has an odd number of `/`-separated parts.
    PathNotPairs,
    /// A name is not valid percent-encoded UTF-8.
    UndecodableSegment,
    /// The leaf is not exactly one `kind/name` pair.
    LeafNotSingleSegment,
    /// A connector registration id is not `Namespace/<ns>/ConnectorClass/<name>`.
    RegistrationIdShape,
    /// A connector registration id has a blank namespace or class name.
    RegistrationIdBlank,
}

/// The description of a key error.
pub open spec fn key_error_text(e: KeyError) -> Seq<char> {
    match e {
        KeyError::MissingNamespacePrefix => "key does not start with @Namespace"@,
        KeyError::MissingNamespaceSeparator => "key is missing namespace separator"@,
        KeyError::MissingDirectChildSeparator => "key is missing direct-child separator"@,
        KeyError::PathNotPairs => "resource path must contain kind/name pairs"@,
        KeyError::UndecodableSegment => "failed to decode key segment"@,
        KeyError::LeafNotSingleSegment => "key leaf must contain exactly one kind/name segment"@,
        KeyError::RegistrationIdShape => "connector registration id must be Namespace/<namespace>/ConnectorClass/<name>"@,
        KeyError::RegistrationIdBlank => "connector registration id namespace and ConnectorClass name are required"@,
    }
}

impl KeyError {
    /// A description of the error.
    pub fn message(&self) -> (r: String)
        ensures
            r@ == key_error_text(*self),
    {
        match self {
            KeyError::MissingNamespacePrefix => owned("key does not start with @Namespace"),
            KeyError::MissingNamespaceSeparator => owned("key is missing namespace separator"),
            KeyError::MissingDirectChildSeparator => owned("key is missing direct-child separator"),
            KeyError::PathNotPairs => owned("resource path must contain kind/name pairs"),
            KeyError::UndecodableSegment => owned("failed to decode key segment"),
            KeyError::LeafNotSingleSegment => owned(
                "key leaf must contain exactly one kind/name segment",
            ),
            KeyError::RegistrationIdShape => owned(
                "connector registration id must be Namespace/<namespace>/ConnectorClass/<name>",
            ),
            KeyError::RegistrationIdBlank => owned(
                "connector registration id namespace and ConnectorClass name are required",
            ),
        }
    }
}

/// Reads the `kind/name` pairs of a list of path parts, decoding names.
pub open spec fn decode_pairs(parts: Seq<Seq<char>>) -> Result<Seq<SegmentView>, KeyError>
    decreases parts.len(),
{
    if parts.len() < 2 {
        Ok(seq![])
    } else {
        match url_decode(parts[1]) {
            None => Err(KeyError::UndecodableSegment),
            Some(name) => match decode_pairs(parts.subrange(2, parts.len() as int)) {
                Ok(rest) => Ok(seq![SegmentView { kind: parts[0], name }] + rest),
                Err(e) => Err(e),
            },
        }
    }
}

/// The segments of a path text.
pub open spec fn parse_path_text(p: Seq<char>) -> Result<Seq<SegmentView>, KeyError> {
    if p.len() == 0 {
        Ok(seq![])
    } else {
        let parts = split_on(p, '/');
        if parts.len() % 2 != 0 {
            Err(KeyError::PathNotPairs)
        } else {
            decode_pairs(parts)
        }
    }
}

/// Splits the text after the namespace into parent path and leaf.
pub open spec fn split_leaf(rest: Seq<char>) -> Option<(Seq<char>, Seq<char>)> {
    if starts_with(rest, seq!['@', '/']) {
        Some((seq![], rest.subrange(2, rest.len() as int)))
    } else {
        match first_occurrence(rest, seq!['/', '@', '/']) {
            Some(j) => Some((rest.subrange(0, j), rest.subrange(j + 3, rest.len() as int))),
            None => None,
        }
    }
}

/// What reading a canonical key text gives.
pub open spec fn parse_canonical_text(key: Seq<char>) -> Result<KeyView, KeyError> {
    let p = ns_prefix() + seq!['/'];
    if !starts_with(key, p) {
        Err(KeyError::MissingNamespacePrefix)
    } else {
        let rest = key.subrange(p.len() as int, key.len() as int);
        match first_index(rest, '/') {
            None => Err(KeyError::MissingNamespaceSeparator),
            Some(i) => {
                let namespace = rest.subrange(0, i);
                match split_leaf(rest.subrange(i + 1, rest.len() as int)) {
                    None => Err(KeyError::MissingDirectChildSeparator),
                    Some((parent_path, leaf)) => match parse_path_text(leaf) {
                        Err(e) => Err(e),
                        Ok(segments) => if segments.len() != 1 {
                            Err(KeyError::LeafNotSingleSegment)
                        } else {
                            Ok(
                                KeyView {
                                    namespace,
                                    parent_path,
                                    kind: segments[0].kind,
                                    name: segments[0].name,
                                },
                            )
                        },
                    },
                }
            },
        }
    }
}

/// The views of a vector of segments.
pub open spec fn segments_view(segments: Seq<ResourceSegment>) -> Seq<SegmentView> {
    segments.map_values(|s: ResourceSegment| s@)
}

/// The segments of a path text.
fn parse_path(p: &str) -> (r: Result<Vec<ResourceSegment>, KeyError>)
    ensures
        match (r, parse_path_text(p@)) {
            (Ok(segments), Ok(expected)) => segments_view(segments@) == expected,
            (Err(e), Err(expected)) => e == expected,
            _ => false,
        },
{
    let v = chars_of(p);
    let mut segments: Vec<ResourceSegment> = Vec::new();
    if v.len() == 0 {
        assert(segments_view(segments@) =~= seq![]);
        return Ok(segments);
    }
    let parts = split_chars(&v, '/');
    let ghost views = views_of(parts@);
    if parts.len() % 2 != 0 {
        return Err(KeyError::PathNotPairs);
    }
    let mut k: usize = 0;
    assert(views.subrange(0, views.len() as int) =~= views);
    while k < parts.len()
        invariant
            views == views_of(parts@),
            views == split_on(p@, '/'),
            p@.len() > 0,
            parts.len() % 2 == 0,
            k % 2 == 0,
            k <= parts.len(),
            decode_pairs(views) == match decode_pairs(views.subrange(k as int, views.len() as int)) {
                Ok(rest) => Ok(segments_view(segments@) + rest),
                Err(e) => Err(e),
            },
        decreases parts.len() - k,
    {
        let ghost tail = views.subrange(k as int, views.len() as int);
        let kind = string_of(&parts[k]);
        let encoded = string_of(&parts[k + 1]);
        assert(views[k as int] == parts@[k as int]@);
        assert(views[k + 1] == parts@[k + 1]@);
        assert(tail[0] == views[k as int] && tail[1] == views[k + 1]);
        assert(tail.subrange(2, tail.len() as int) =~= views.subrange(k + 2, views.len() as int));
        match decode(encoded.as_str()) {
            Ok(name) => {
                let ghost before = segments_view(segments@);
                segments.push(ResourceSegment { kind, name });
                proof {
                    assert(segments_view(segments@) =~= before + seq![
                        SegmentView { kind: views[k as int], name: name@ },
                    ]);
                    match decode_pairs(views.subrange(k + 2, views.len() as int)) {
                        Ok(rest) => {
                            assert(before + (seq![SegmentView { kind: views[k as int], name: name@ }] + rest)
                                =~= segments_view(segments@) + rest);
                        },
                        Err(e) => {},
                    }
                }
                k += 2;
            },
            Err(_) => {
                proof {
                    assert(tail.len() >= 2);
                    assert(tail[1] == encoded@);
                    assert(url_decode(tail[1]) is None);
                    assert(decode_pairs(tail) == Err::<Seq<SegmentView>, KeyError>(
                        KeyError::UndecodableSegment,
                    ));
                    assert(decode_pairs(views) == Err::<Seq<SegmentView>, KeyError>(
                        KeyError::UndecodableSegment,
                    ));
                    assert(p@.len() != 0);
                    assert(parse_path_text(p@) == decode_pairs(views));
                }
                return Err(KeyError::UndecodableSegment);
            },
        }
    }
    assert(views.subrange(k as int, views.len() as int) =~= seq![]);
    assert(segments_view(segments@) + seq![] =~= segments_view(segments@));
    Ok(segments)
}

/// Splits the text after the namespace into parent path and leaf.
fn split_leaf_chars(rest: &Vec<char>) -> (r: Option<(String, String)>)
    ensures
        match (r, split_leaf(rest@)) {
            (Some((parent_path, leaf)), Some((pp, l))) => parent_path@ == pp && leaf@ == l,
            (None, None) => true,
            _ => false,
        },
{
    let at = chars_of("@/");
    let sep = chars_of("/@/");
    proof {
        reveal_strlit("@/");
        reveal_strlit("/@/");
        assert(at@ =~= seq!['@', '/']);
        assert(sep@ =~= seq!['/', '@', '/']);
    }
    if chars_match_at(rest, 0, &at) {
        let r = (String::new(), string_of_range(rest, 2, rest.len()));
        assert(r.0@ =~= seq![]);
        Some(r)
    } else {
        match find_chars(rest, &sep) {
            Some(j) => Some((string_of_range(rest, 0, j), string_of_range(rest, j + 3, rest.len()))),
            None => None,
        }
    }
}

/// `r` is what reading `key` gives.
pub open spec fn key_result_is(r: Result<ResourceKey, KeyError>, expected: Result<KeyView, KeyError>) -> bool {
    match (r, expected) {
        (Ok(k), Ok(v)) => k@ == v,
        (Err(e), Err(f)) => e == f,
        _ => false,
    }
}

impl ResourceKey {
    /// Reads a canonical key text back into its parts.
    pub fn parse_canonical(key: &str) -> (r: Result<Self, KeyError>)
        ensures
            key_result_is(r, parse_canonical_text(key@)),
    {
        let v = chars_of(key);
        let p = chars_of("@Namespace/");
        proof {
            reveal_strlit("@Namespace/");
            assert(p@ =~= ns_prefix() + seq!['/']);
        }
        if !chars_match_at(&v, 0, &p) {
            return Err(KeyError::MissingNamespacePrefix);
        }
        let rest = sub_chars(&v, p.len(), v.len());
        let i = match find_char(&rest, '/') {
            Some(i) => i,
            None => {
                return Err(KeyError::MissingNamespaceSeparator);
            },
        };
        let namespace = string_of_range(&rest, 0, i);
        let rest2 = sub_chars(&rest, i + 1, rest.len());
        let (parent_path, leaf) = match split_leaf_chars(&rest2) {
            Some(parts) => parts,
            None => {
                return Err(KeyError::MissingDirectChildSeparator);
            },
        };
        let segments = match parse_path(leaf.as_str()) {
            Ok(segments) => segments,
            Err(e) => {
                return Err(e);
            },
        };
        if segments.len() != 1 {
            return Err(KeyError::LeafNotSingleSegment);
        }
        let kind = segments[0].kind.clone();
        let name = segments[0].name.clone();
        Ok(ResourceKey { namespace, parent_path, kind, name })
    }

    /// The segments of this key's parent path.
    pub fn parent_segments(&self) -> (r: Result<Vec<ResourceSegment>, KeyError>)
        ensures
            match (r, parse_path_text(self.parent_path@)) {
                (Ok(segments), Ok(expected)) => segments_view(segments@) == expected,
                (Err(e), Err(expected)) => e == expected,
                _ => false,
            },
    {
        parse_path(self.parent_path.as_str())
    }
}

/// The key of `kind/name` below the chain `parents` in `namespace`.
pub open spec fn key_in(
    namespace: Seq<char>,
    parents: Seq<(Seq<char>, Seq<char>)>,
    kind: Seq<char>,
    name: Seq<char>,
) -> KeyView {
    KeyView { namespace, parent_path: path_text(parents), kind, name }
}

/// The listing of the children of the chain `parents` in `namespace`.
pub open spec fn children_in(
    namespace: Seq<char>,
    parents: Seq<(Seq<char>, Seq<char>)>,
    kind: Option<Seq<char>>,
) -> ListView {
    ListView { parent: ParentView { namespace, parent_path: path_text(parents) }, kind }
}

fn resource_key(namespace: &str, parent: &[(&str, &str)], child_kind: &str, child_name: &str) -> (k:
    ResourceKey)
    ensures
        k@ == key_in(namespace@, pairs_view(parent@), child_kind@, child_name@),
{
    ResourceKey::new(namespace, parent, child_kind, child_name)
}

fn direct_child_prefix(namespace: &str, parent: &[(&str, &str)], child_kind: Option<&str>) -> (l:
    ResourceList)
    ensures
        l@ == children_in(
            namespace@,
            pairs_view(parent@),
            match child_kind {
                Some(k) => Some(k@),
                None => None,
            },
        ),
{
    ResourceList {
        parent: ResourceParent { namespace: owned(namespace), parent_path: path(parent) },
        kind: match child_kind {
            Some(k) => Some(owned(k)),
            None => None,
        },
    }
}

/// The name of `key` when it is a direct child listed by `prefix`.
pub fn direct_child_name(prefix: &ResourceList, key: &ResourceKey) -> (r: Option<String>)
    ensures
        r matches Some(name) ==> name@ == key.name@,
        r is Some <==> list_matches(prefix@, key@),
{
    if prefix.matches(key) {
        Some(key.name.clone())
    } else {
        None
    }
}

/// The key of the metadata of namespace `name`.
pub fn namespace_metadata(name: &str) -> (k: ResourceKey)
    ensures
        k@ == key_in(ns::TALON_SYSTEM@, seq![], "Namespace"@, name@),
{
    resource_key(ns::TALON_SYSTEM, &[], "Namespace", name)
}

/// The metadata of all namespaces.
pub fn namespace_metadata_prefix() -> (l: ResourceList)
    ensures
        l@ == children_in(ns::TALON_SYSTEM@, seq![], Some("Namespace"@)),
{
    direct_child_prefix(ns::TALON_SYSTEM, &[], Some("Namespace"))
}

/// The namespace a namespace reference lives in: the parent, or the system
/// namespace for a root namespace.
pub open spec fn ref_namespace(parent: Option<&str>) -> Seq<char> {
    match parent {
        Some(p) => p@,
        None => ns::TALON_SYSTEM@,
    }
}

/// The reference from `parent` (or the root) to its child namespace.
pub fn namespace_ref(parent: Option<&str>, child_segment: &str) -> (k: ResourceKey)
    ensures
        k@ == key_in(ref_namespace(parent), seq![], "NamespaceRef"@, child_segment@),
{
    let ref_namespace = match parent {
        Some(p) => p,
        None => ns::TALON_SYSTEM,
    };
    resource_key(ref_namespace, &[], "NamespaceRef", child_segment)
}

/// The child namespace references of `parent` (or of the root).
pub fn namespace_ref_prefix(parent: Option<&str>) -> (l: ResourceList)
    ensures
        l@ == children_in(ref_namespace(parent), seq![], Some("NamespaceRef"@)),
{
    let ref_namespace = match parent {
        Some(p) => p,
        None => ns::TALON_SYSTEM,
    };
    direct_child_prefix(ref_namespace, &[], Some("NamespaceRef"))
}

/// The parent of the children of a session.
pub fn session_parent(namespace: &str, agent: &str, session_id: &str) -> (p: ResourceParent)
    ensures
        p@ == key_as_parent(key_in(namespace@, seq![("Agent"@, agent@)], "Session"@, session_id@)),
{
    session(namespace, agent, session_id).as_parent()
}

/// The parent of the children of a session message.
pub fn session_message_parent(namespace: &str, agent: &str, session_id: &str, message_id: &str) -> (p:
    ResourceParent)
    ensures
        p@ == key_as_parent(
            key_in(
                namespace@,
                seq![("Agent"@, agent@), ("Session"@, session_id@)],
                "SessionMessage"@,
                message_id@,
            ),
        ),
{
    session_message(namespace, agent, session_id, message_id).as_parent()
}

/// The parent of the children of a channel.
pub fn channel_parent(namespace: &str, name: &str) -> (p: ResourceParent)
    ensures
        p@ == key_as_parent(key_in(namespace@, seq![], "Channel"@, name@)),
{
    channel(namespace, name).as_parent()
}

/// `<target agent>:<target session>`, the name of an artifact access grant.
pub open spec fn artifact_access_name_text(target_agent: Seq<char>, target_session_id: Seq<char>) -> Seq<char> {
    target_agent + seq![':'] + target_session_id
}

/// The name of the grant of an artifact to a target session.
pub fn artifact_access_name(target_agent: &str, target_session_id: &str) -> (s: String)
    ensures
        s@ == artifact_access_name_text(target_agent@, target_session_id@),
{
    let mut s = owned(target_agent);
    push_char(&mut s, ':');
    push_str(&mut s, target_session_id);
    assert(s@ =~= artifact_access_name_text(target_agent@, target_session_id@));
    s
}

/// The grant of an artifact to the session `target_session_id` of `target_agent`.
pub fn artifact_access(
    namespace: &str,
    agent: &str,
    session_id: &str,
    artifact_id: &str,
    target_agent: &str,
    target_session_id: &str,
) -> (k: ResourceKey)
    ensures
        k@ == key_in(
            namespace@,
            seq![("Agent"@, agent@), ("Session"@, session_id@), ("Artifact"@, artifact_id@)],
            "ArtifactAccess"@,
            artifact_access_name_text(target_agent@, target_session_id@),
        ),
{
    let name = artifact_access_name(target_agent, target_session_id);
    let parents: [(&str, &str); 3] = [("Agent", agent), ("Session", session_id), ("Artifact", artifact_id)];
    proof {
        assert(pairs_view(parents@) =~= seq![("Agent"@, agent@), ("Session"@, session_id@), ("Artifact"@, artifact_id@)]);
    }
    resource_key(namespace, &parents, "ArtifactAccess", name.as_str())
}

/// The key of the agent `id`.
pub fn agent(namespace: &str, id: &str) -> (k: ResourceKey)
    ensures
        k@ == key_in(namespace@, seq![], "Agent"@, id@),
{
    resource_key(namespace, &[], "Agent", id)
}

/// The agents of `namespace`.
pub fn agent_prefix(namespace: &str) -> (l: ResourceList)
    ensures
        l@ == children_in(namespace@, seq![], Some("Agent"@)),
{
    direct_child_prefix(namespace, &[], Some("Agent"))
}

/// The key of the file `name`.
pub fn file(namespace: &str, name: &str) -> (k: ResourceKey)
    ensures
        k@ == key_in(namespace@, seq![], "File"@, name@),
{
    resource_key(namespace, &[], "File", name)
}

/// The files of `namespace`.
pub fn file_prefix(namespace: &str) -> (l: ResourceList)
    ensures
        l@ == children_in(namespace@, seq![], Some("File"@)),
{
    direct_child_prefix(namespace, &[], Some("File"))
}

/// The session `session_id` of `agent`.
pub fn session(namespace: &str, agent: &str, session_id: &str) -> (k: ResourceKey)
    ensures
        k@ == key_in(namespace@, seq![("Agent"@, agent@)], "Session"@, session_id@),
{
    resource_key(namespace, &[("Agent", agent)], "Session", session_id)
}

/// The sessions of `agent`.
pub fn session_prefix(namespace: &str, agent: &str) -> (l: ResourceList)
    ensures
        l@ == children_in(namespace@, seq![("Agent"@, agent@)], Some("Session"@)),
{
    direct_child_prefix(namespace, &[("Agent", agent)], Some("Session"))
}

/// The message `message_id` of a session.
pub fn session_message(namespace: &str, agent: &str, session_id: &str, message_id: &str) -> (k: ResourceKey)
    ensures
        k@ == key_in(namespace@, seq![("Agent"@, agent@), ("Session"@, session_id@)], "SessionMessage"@, message_id@),
{
    let parents: [(&str, &str); 2] = [("Agent", agent), ("Session", session_id)];
    proof {
        assert(pairs_view(parents@) =~= seq![("Agent"@, agent@), ("Session"@, session_id@)]);
    }
    resource_key(namespace, &parents, "SessionMessage", message_id)
}

/// The messages of a session.
pub fn session_message_prefix(namespace: &str, agent: &str, session_id: &str) -> (l: ResourceList)
    ensures
        l@ == children_in(namespace@, seq![("Agent"@, agent@), ("Session"@, session_id@)], Some("SessionMessage"@)),
{
    let parents: [(&str, &str); 2] = [("Agent", agent), ("Session", session_id)];
    proof {
        assert(pairs_view(parents@) =~= seq![("Agent"@, agent@), ("Session"@, session_id@)]);
    }
    direct_child_prefix(namespace, &parents, Some("SessionMessage"))
}

/// The artifact `artifact_id` of a session.
pub fn artifact(namespace: &str, agent: &str, session_id: &str, artifact_id: &str) -> (k: ResourceKey)
    ensures
        k@ == key_in(namespace@, seq![("Agent"@, agent@), ("Session"@, session_id@)], "Artifact"@, artifact_id@),
{
    let parents: [(&str, &str); 2] = [("Agent", agent), ("Session", session_id)];
    proof {
        assert(pairs_view(parents@) =~= seq![("Agent"@, agent@), ("Session"@, session_id@)]);
    }
    resource_key(namespace, &parents, "Artifact", artifact_id)
}

/// The artifacts of a session.
pub fn artifact_prefix(namespace: &str, agent: &str, session_id: &str) -> (l: ResourceList)
    ensures
        l@ == children_in(namespace@, seq![("Agent"@, agent@), ("Session"@, session_id@)], Some("Artifact"@)),
{
    let parents: [(&str, &str); 2] = [("Agent", agent), ("Session", session_id)];
    proof {
        assert(pairs_view(parents@) =~= seq![("Agent"@, agent@), ("Session"@, session_id@)]);
    }
    direct_child_prefix(namespace, &parents, Some("Artifact"))
}

/// The access grants of an artifact.
pub fn artifact_access_prefix(namespace: &str, agent: &str, session_id: &str, artifact_id: &str) -> (l: ResourceList)
    ensures
        l@ == children_in(namespace@, seq![("Agent"@, agent@), ("Session"@, session_id@), ("Artifact"@, artifact_id@)], Some("ArtifactAccess"@)),
{
    let parents: [(&str, &str); 3] = [("Agent", agent), ("Session", session_id), ("Artifact", artifact_id)];
    proof {
        assert(pairs_view(parents@) =~= seq![("Agent"@, agent@), ("Session"@, session_id@), ("Artifact"@, artifact_id@)]);
    }
    direct_child_prefix(namespace, &parents, Some("ArtifactAccess"))
}

/// The submission `submission_id` of a session.
pub fn session_submission(namespace: &str, agent: &str, session_id: &str, submission_id: &str) -> (k: ResourceKey)
    ensures
        k@ == key_in(namespace@, seq![("Agent"@, agent@), ("Session"@, session_id@)], "SessionSubmission"@, submission_id@),
{
    let parents: [(&str, &str); 2] = [("Agent", agent), ("Session", session_id)];
    proof {
        assert(pairs_view(parents@) =~= seq![("Agent"@, agent@), ("Session"@, session_id@)]);
    }
    resource_key(namespace, &parents, "SessionSubmission", submission_id)
}

/// The submissions of a session.
pub fn session_submission_prefix(namespace: &str, agent: &str, session_id: &str) -> (l: ResourceList)
    ensures
        l@ == children_in(namespace@, seq![("Agent"@, agent@), ("Session"@, session_id@)], Some("SessionSubmission"@)),
{
    let parents: [(&str, &str); 2] = [("Agent", agent), ("Session", session_id)];
    proof {
        assert(pairs_view(parents@) =~= seq![("Agent"@, agent@), ("Session"@, session_id@)]);
    }
    direct_child_prefix(namespace, &parents, Some("SessionSubmission"))
}

/// The asynchronous agent-to-agent wakeup `wakeup_id` of a session.
pub fn async_a2a_wakeup(namespace: &str, agent: &str, session_id: &str, wakeup_id: &str) -> (k: ResourceKey)
    ensures
        k@ == key_in(namespace@, seq![("Agent"@, agent@), ("Session"@, session_id@)], "AsyncA2AWakeup"@, wakeup_id@),
{
    let parents: [(&str, &str); 2] = [("Agent", agent), ("Session", session_id)];
    proof {
        assert(pairs_view(parents@) =~= seq![("Agent"@, agent@), ("Session"@, session_id@)]);
    }
    resource_key(namespace, &parents, "AsyncA2AWakeup", wakeup_id)
}

/// The asynchronous agent-to-agent wakeups of a session.
pub fn async_a2a_wakeup_prefix(namespace: &str, agent: &str, session_id: &str) -> (l: ResourceList)
    ensures
        l@ == children_in(namespace@, seq![("Agent"@, agent@), ("Session"@, session_id@)], Some("AsyncA2AWakeup"@)),
{
    let parents: [(&str, &str); 2] = [("Agent", agent), ("Session", session_id)];
    proof {
        assert(pairs_view(parents@) =~= seq![("Agent"@, agent@), ("Session"@, session_id@)]);
    }
    direct_child_prefix(namespace, &parents, Some("AsyncA2AWakeup"))
}

/// The journal entry `journal_entry_id` of a submission.
pub fn session_journal_entry(namespace: &str, agent: &str, session_id: &str, submission_id: &str, journal_entry_id: &str) -> (k: ResourceKey)
    ensures
        k@ == key_in(namespace@, seq![("Agent"@, agent@), ("Session"@, session_id@), ("SessionSubmission"@, submission_id@)], "SessionJournalEntry"@, journal_entry_id@),
{
    let parents: [(&str, &str); 3] = [("Agent", agent), ("Session", session_id), ("SessionSubmission", submission_id)];
    proof {
        assert(pairs_view(parents@) =~= seq![("Agent"@, agent@), ("Session"@, session_id@), ("SessionSubmission"@, submission_id@)]);
    }
    resource_key(namespace, &parents, "SessionJournalEntry", journal_entry_id)
}

/// The journal entries of a submission.
pub fn session_journal_entry_prefix(namespace: &str, agent: &str, session_id: &str, submission_id: &str) -> (l: ResourceList)
    ensures
        l@ == children_in(namespace@, seq![("Agent"@, agent@), ("Session"@, session_id@), ("SessionSubmission"@, submission_id@)], Some("SessionJournalEntry"@)),
{
    let parents: [(&str, &str); 3] = [("Agent", agent), ("Session", session_id), ("SessionSubmission", submission_id)];
    proof {
        assert(pairs_view(parents@) =~= seq![("Agent"@, agent@), ("Session"@, session_id@), ("SessionSubmission"@, submission_id@)]);
    }
    direct_child_prefix(namespace, &parents, Some("SessionJournalEntry"))
}

/// The permission decision for request `request_id` of a session.
pub fn session_permission_decision(namespace: &str, agent: &str, session_id: &str, request_id: &str) -> (k: ResourceKey)
    ensures
        k@ == key_in(namespace@, seq![("Agent"@, agent@), ("Session"@, session_id@)], "PermissionDecision"@, request_id@),
{
    let parents: [(&str, &str); 2] = [("Agent", agent), ("Session", session_id)];
    proof {
        assert(pairs_view(parents@) =~= seq![("Agent"@, agent@), ("Session"@, session_id@)]);
    }
    resource_key(namespace, &parents, "PermissionDecision", request_id)
}

/// The key of the channel `name`.
pub fn channel(namespace: &str, name: &str) -> (k: ResourceKey)
    ensures
        k@ == key_in(namespace@, seq![], "Channel"@, name@),
{
    resource_key(namespace, &[], "Channel", name)
}

/// The channels of `namespace`.
pub fn channel_prefix(namespace: &str) -> (l: ResourceList)
    ensures
        l@ == children_in(namespace@, seq![], Some("Channel"@)),
{
    direct_child_prefix(namespace, &[], Some("Channel"))
}

/// The message `message_id` of a channel.
pub fn channel_message(namespace: &str, channel: &str, message_id: &str) -> (k: ResourceKey)
    ensures
        k@ == key_in(namespace@, seq![("Channel"@, channel@)], "ChannelMessage"@, message_id@),
{
    resource_key(namespace, &[("Channel", channel)], "ChannelMessage", message_id)
}

/// The messages of a channel.
pub fn channel_message_prefix(namespace: &str, channel: &str) -> (l: ResourceList)
    ensures
        l@ == children_in(namespace@, seq![("Channel"@, channel@)], Some("ChannelMessage"@)),
{
    direct_child_prefix(namespace, &[("Channel", channel)], Some("ChannelMessage"))
}

/// The subscription `name` of a channel.
pub fn channel_subscription(namespace: &str, channel: &str, name: &str) -> (k: ResourceKey)
    ensures
        k@ == key_in(namespace@, seq![("Channel"@, channel@)], "ChannelSubscription"@, name@),
{
    resource_key(namespace, &[("Channel", channel)], "ChannelSubscription", name)
}

/// The subscriptions of a channel.
pub fn channel_subscription_prefix(namespace: &str, channel: &str) -> (l: ResourceList)
    ensures
        l@ == children_in(namespace@, seq![("Channel"@, channel@)], Some("ChannelSubscription"@)),
{
    direct_child_prefix(namespace, &[("Channel", channel)], Some("ChannelSubscription"))
}

/// The key of the schedule `name`.
pub fn schedule(namespace: &str, name: &str) -> (k: ResourceKey)
    ensures
        k@ == key_in(namespace@, seq![], "Schedule"@, name@),
{
    resource_key(namespace, &[], "Schedule", name)
}

/// The schedules of `namespace`.
pub fn schedule_prefix(namespace: &str) -> (l: ResourceList)
    ensures
        l@ == children_in(namespace@, seq![], Some("Schedule"@)),
{
    direct_child_prefix(namespace, &[], Some("Schedule"))
}

/// The key of the workflow `name`.
pub fn workflow(namespace: &str, name: &str) -> (k: ResourceKey)
    ensures
        k@ == key_in(namespace@, seq![], "Workflow"@, name@),
{
    resource_key(namespace, &[], "Workflow", name)
}

/// The workflows of `namespace`.
pub fn workflow_prefix(namespace: &str) -> (l: ResourceList)
    ensures
        l@ == children_in(namespace@, seq![], Some("Workflow"@)),
{
    direct_child_prefix(namespace, &[], Some("Workflow"))
}

/// The run `run_id` of a workflow.
pub fn workflow_run(namespace: &str, workflow: &str, run_id: &str) -> (k: ResourceKey)
    ensures
        k@ == key_in(namespace@, seq![("Workflow"@, workflow@)], "WorkflowRun"@, run_id@),
{
    resource_key(namespace, &[("Workflow", workflow)], "WorkflowRun", run_id)
}

/// The runs of a workflow.
pub fn workflow_run_prefix(namespace: &str, workflow: &str) -> (l: ResourceList)
    ensures
        l@ == children_in(namespace@, seq![("Workflow"@, workflow@)], Some("WorkflowRun"@)),
{
    direct_child_prefix(namespace, &[("Workflow", workflow)], Some("WorkflowRun"))
}

/// The step run `step_run_id` of a workflow run.
pub fn workflow_step_run(namespace: &str, workflow: &str, run_id: &str, step_run_id: &str) -> (k: ResourceKey)
    ensures
        k@ == key_in(namespace@, seq![("Workflow"@, workflow@), ("WorkflowRun"@, run_id@)], "WorkflowStepRun"@, step_run_id@),
{
    let parents: [(&str, &str); 2] = [("Workflow", workflow), ("WorkflowRun", run_id)];
    proof {
        assert(pairs_view(parents@) =~= seq![("Workflow"@, workflow@), ("WorkflowRun"@, run_id@)]);
    }
    resource_key(namespace, &parents, "WorkflowStepRun", step_run_id)
}

/// The step runs of a workflow run.
pub fn workflow_step_run_prefix(namespace: &str, workflow: &str, run_id: &str) -> (l: ResourceList)
    ensures
        l@ == children_in(namespace@, seq![("Workflow"@, workflow@), ("WorkflowRun"@, run_id@)], Some("WorkflowStepRun"@)),
{
    let parents: [(&str, &str); 2] = [("Workflow", workflow), ("WorkflowRun", run_id)];
    proof {
        assert(pairs_view(parents@) =~= seq![("Workflow"@, workflow@), ("WorkflowRun"@, run_id@)]);
    }
    direct_child_prefix(namespace, &parents, Some("WorkflowStepRun"))
}

/// The event `event_id` of a workflow run.
pub fn workflow_run_event(namespace: &str, workflow: &str, run_id: &str, event_id: &str) -> (k: ResourceKey)
    ensures
        k@ == key_in(namespace@, seq![("Workflow"@, workflow@), ("WorkflowRun"@, run_id@)], "WorkflowRunEvent"@, event_id@),
{
    let parents: [(&str, &str); 2] = [("Workflow", workflow), ("WorkflowRun", run_id)];
    proof {
        assert(pairs_view(parents@) =~= seq![("Workflow"@, workflow@), ("WorkflowRun"@, run_id@)]);
    }
    resource_key(namespace, &parents, "WorkflowRunEvent", event_id)
}

/// The events of a workflow run.
pub fn workflow_run_event_prefix(namespace: &str, workflow: &str, run_id: &str) -> (l: ResourceList)
    ensures
        l@ == children_in(namespace@, seq![("Workflow"@, workflow@), ("WorkflowRun"@, run_id@)], Some("WorkflowRunEvent"@)),
{
    let parents: [(&str, &str); 2] = [("Workflow", workflow), ("WorkflowRun", run_id)];
    proof {
        assert(pairs_view(parents@) =~= seq![("Workflow"@, workflow@), ("WorkflowRun"@, run_id@)]);
    }
    direct_child_prefix(namespace, &parents, Some("WorkflowRunEvent"))
}

/// The key of the MCP server `name`.
pub fn mcp_server(namespace: &str, name: &str) -> (k: ResourceKey)
    ensures
        k@ == key_in(namespace@, seq![], "McpServer"@, name@),
{
    resource_key(namespace, &[], "McpServer", name)
}

/// The MCP servers of `namespace`.
pub fn mcp_server_prefix(namespace: &str) -> (l: ResourceList)
    ensures
        l@ == children_in(namespace@, seq![], Some("McpServer"@)),
{
    direct_child_prefix(namespace, &[], Some("McpServer"))
}

/// The memory entry at `path` of an agent.
pub fn agent_memory(namespace: &str, agent: &str, path: &str) -> (k: ResourceKey)
    ensures
        k@ == key_in(namespace@, seq![("Agent"@, agent@)], "Memory"@, path@),
{
    resource_key(namespace, &[("Agent", agent)], "Memory", path)
}

/// The memory entries of an agent.
pub fn agent_memory_prefix(namespace: &str, agent: &str) -> (l: ResourceList)
    ensures
        l@ == children_in(namespace@, seq![("Agent"@, agent@)], Some("Memory"@)),
{
    direct_child_prefix(namespace, &[("Agent", agent)], Some("Memory"))
}

/// The knowledge document at `path`.
pub fn knowledge(namespace: &str, path: &str) -> (k: ResourceKey)
    ensures
        k@ == key_in(namespace@, seq![], "Knowledge"@, path@),
{
    resource_key(namespace, &[], "Knowledge", path)
}

/// The knowledge documents of `namespace`.
pub fn knowledge_prefix(namespace: &str) -> (l: ResourceList)
    ensures
        l@ == children_in(namespace@, seq![], Some("Knowledge"@)),
{
    direct_child_prefix(namespace, &[], Some("Knowledge"))
}

/// The key of the knowledge resource `name`.
pub fn knowledge_resource(namespace: &str, name: &str) -> (k: ResourceKey)
    ensures
        k@ == key_in(namespace@, seq![], "KnowledgeResource"@, name@),
{
    resource_key(namespace, &[], "KnowledgeResource", name)
}

/// The knowledge resources of `namespace`.
pub fn knowledge_resource_prefix(namespace: &str) -> (l: ResourceList)
    ensures
        l@ == children_in(namespace@, seq![], Some("KnowledgeResource"@)),
{
    direct_child_prefix(namespace, &[], Some("KnowledgeResource"))
}

/// The key of the skill `name`.
pub fn skill(namespace: &str, name: &str) -> (k: ResourceKey)
    ensures
        k@ == key_in(namespace@, seq![], "Skill"@, name@),
{
    resource_key(namespace, &[], "Skill", name)
}

/// The skills of `namespace`.
pub fn skill_prefix(namespace: &str) -> (l: ResourceList)
    ensures
        l@ == children_in(namespace@, seq![], Some("Skill"@)),
{
    direct_child_prefix(namespace, &[], Some("Skill"))
}

/// The route `name` of a connector class.
pub fn connector_route(class_namespace: &str, class_name: &str, name: &str) -> (k: ResourceKey)
    ensures
        k@ == key_in(class_namespace@, seq![("ConnectorClass"@, class_name@)], "Route"@, name@),
{
    resource_key(class_namespace, &[("ConnectorClass", class_name)], "Route", name)
}

/// The routes of a connector class.
pub fn connector_route_prefix(class_namespace: &str, class_name: &str) -> (l: ResourceList)
    ensures
        l@ == children_in(class_namespace@, seq![("ConnectorClass"@, class_name@)], Some("Route"@)),
{
    direct_child_prefix(class_namespace, &[("ConnectorClass", class_name)], Some("Route"))
}

/// The event `event_id` of a connector class.
pub fn connector_event(class_namespace: &str, class_name: &str, event_id: &str) -> (k: ResourceKey)
    ensures
        k@ == key_in(class_namespace@, seq![("ConnectorClass"@, class_name@)], "Event"@, event_id@),
{
    resource_key(class_namespace, &[("ConnectorClass", class_name)], "Event", event_id)
}

/// The events of a connector class.
pub fn connector_event_prefix(class_namespace: &str, class_name: &str) -> (l: ResourceList)
    ensures
        l@ == children_in(class_namespace@, seq![("ConnectorClass"@, class_name@)], Some("Event"@)),
{
    direct_child_prefix(class_namespace, &[("ConnectorClass", class_name)], Some("Event"))
}

/// The session `name` of a connector class.
pub fn connector_session(class_namespace: &str, class_name: &str, name: &str) -> (k: ResourceKey)
    ensures
        k@ == key_in(class_namespace@, seq![("ConnectorClass"@, class_name@)], "Session"@, name@),
{
    resource_key(class_namespace, &[("ConnectorClass", class_name)], "Session", name)
}

/// The sessions of a connector class.
pub fn connector_session_prefix(class_namespace: &str, class_name: &str) -> (l: ResourceList)
    ensures
        l@ == children_in(class_namespace@, seq![("ConnectorClass"@, class_name@)], Some("Session"@)),
{
    direct_child_prefix(class_namespace, &[("ConnectorClass", class_name)], Some("Session"))
}
/// `Namespace`, the first part of a connector registration id.
pub open spec fn namespace_word() -> Seq<char> {
    seq!['N', 'a', 'm', 'e', 's', 'p', 'a', 'c', 'e']
}

/// `ConnectorClass`, the third part of a connector registration id.
pub open spec fn connector_class_word() -> Seq<char> {
    seq!['C', 'o', 'n', 'n', 'e', 'c', 't', 'o', 'r', 'C', 'l', 'a', 's', 's']
}

/// `Namespace/<encoded namespace>/ConnectorClass/<encoded name>`.
pub open spec fn registration_id_text(class_namespace: Seq<char>, class_name: Seq<char>) -> Seq<char> {
    namespace_word() + seq!['/'] + url_encode(class_namespace) + seq!['/'] + connector_class_word()
        + seq!['/'] + url_encode(class_name)
}

/// What reading a connector registration id gives.
pub open spec fn parse_registration_id_text(id: Seq<char>) -> Result<(Seq<char>, Seq<char>), KeyError> {
    let parts = split_on(id, '/');
    if parts.len() != 4 || parts[0] != namespace_word() || parts[2] != connector_class_word() {
        Err(KeyError::RegistrationIdShape)
    } else {
        match url_decode(parts[1]) {
            None => Err(KeyError::UndecodableSegment),
            Some(namespace) => match url_decode(parts[3]) {
                None => Err(KeyError::UndecodableSegment),
                Some(class_name) => if is_blank(namespace) || is_blank(class_name) {
                    Err(KeyError::RegistrationIdBlank)
                } else {
                    Ok((namespace, class_name))
                },
            },
        }
    }
}

/// The registration id of the connector class `class_name` in `class_namespace`.
pub fn connector_registration_id(class_namespace: &str, class_name: &str) -> (s: String)
    ensures
        s@ == registration_id_text(class_namespace@, class_name@),
{
    let mut s = owned("Namespace/");
    let ns_part = encode(class_namespace);
    push_str(&mut s, ns_part.as_str());
    push_str(&mut s, "/ConnectorClass/");
    let name_part = encode(class_name);
    push_str(&mut s, name_part.as_str());
    proof {
        reveal_strlit("Namespace/");
        reveal_strlit("/ConnectorClass/");
        assert(s@ =~= registration_id_text(class_namespace@, class_name@));
    }
    s
}

/// Reads a connector registration id back into class namespace and name.
pub fn parse_connector_registration_id(registration_id: &str) -> (r: Result<(String, String), KeyError>)
    ensures
        match (r, parse_registration_id_text(registration_id@)) {
            (Ok((namespace, class_name)), Ok((ns, name))) => namespace@ == ns && class_name@ == name,
            (Err(e), Err(f)) => e == f,
            _ => false,
        },
{
    let v = chars_of(registration_id);
    let parts = split_chars(&v, '/');
    let ghost views = views_of(parts@);
    let word_ns = chars_of("Namespace");
    let word_class = chars_of("ConnectorClass");
    proof {
        reveal_strlit("Namespace");
        reveal_strlit("ConnectorClass");
        assert(word_ns@ =~= namespace_word());
        assert(word_class@ =~= connector_class_word());
    }
    if parts.len() != 4 || !chars_eq(&parts[0], &word_ns) || !chars_eq(&parts[2], &word_class) {
        proof {
            if parts.len() == 4 {
                assert(views[0] == parts@[0]@);
                assert(views[2] == parts@[2]@);
            }
        }
        return Err(KeyError::RegistrationIdShape);
    }
    assert(views[0] == parts@[0]@ && views[1] == parts@[1]@);
    assert(views[2] == parts@[2]@ && views[3] == parts@[3]@);
    let encoded_ns = string_of(&parts[1]);
    let encoded_name = string_of(&parts[3]);
    let namespace = match decode(encoded_ns.as_str()) {
        Ok(n) => n,
        Err(_) => {
            return Err(KeyError::UndecodableSegment);
        },
    };
    let class_name = match decode(encoded_name.as_str()) {
        Ok(n) => n,
        Err(_) => {
            return Err(KeyError::UndecodableSegment);
        },
    };
    if blank(namespace.as_str()) || blank(class_name.as_str()) {
        return Err(KeyError::RegistrationIdBlank);
    }
    Ok((namespace, class_name))
}

/// The slug characters of a path: ASCII letters and digits lower-cased,
/// everything else `-`.
pub open spec fn slug_chars(s: Seq<char>) -> Seq<char> {
    s.map_values(|ch: char| if is_ascii_alphanumeric(ch) { ascii_lower(ch) } else { '-' })
}

/// The readable part of a file name: the slug of the path without outer `/`,
/// without outer `-`, cut to 48 characters.
pub open spec fn path_slug(path: Seq<char>) -> Seq<char> {
    let slug = trim_text(slug_chars(trim_text(path, '/')), '-');
    if slug.len() <= 48 {
        slug
    } else {
        slug.take(48)
    }
}

/// `file`, the slug used when the path has none.
pub open spec fn file_word() -> Seq<char> {
    seq!['f', 'i', 'l', 'e']
}

/// The resource name of the file at `path`: slug, `-`, and the first twelve
/// hex digits of the SHA-256 of the path.
pub open spec fn file_name_text(path: Seq<char>) -> Seq<char> {
    let slug = path_slug(path);
    (if slug.len() == 0 {
        file_word()
    } else {
        slug
    }) + seq!['-'] + hex_lower(sha256_digest(encode_utf8(path))).take(12)
}

/// The resource name of the file at `path`.
pub fn file_name_for_path(path: &str) -> (s: String)
    ensures
        s@ == file_name_text(path@),
{
    let v = chars_of(path);
    let trimmed = trim_chars(&v, '/');
    let mut mapped: Vec<char> = Vec::new();
    let mut i: usize = 0;
    while i < trimmed.len()
        invariant
            i <= trimmed.len(),
            mapped@ == slug_chars(trimmed@.take(i as int)),
        decreases trimmed.len() - i,
    {
        let ch = trimmed[i];
        let out = if ascii_alphanumeric(ch) {
            to_ascii_lower(ch)
        } else {
            '-'
        };
        mapped.push(out);
        i += 1;
        assert(mapped@ =~= slug_chars(trimmed@.take(i as int)));
    }
    assert(trimmed@.take(trimmed@.len() as int) =~= trimmed@);
    let slug = trim_chars(&mapped, '-');
    let slug_len = if slug.len() <= 48 {
        slug.len()
    } else {
        48
    };
    let mut s = if slug_len == 0 {
        owned("file")
    } else {
        string_of_range(&slug, 0, slug_len)
    };
    push_char(&mut s, '-');
    let hash = sha256_hex(path.as_bytes());
    let hash_chars = chars_of(hash.as_str());
    let short = string_of_range(&hash_chars, 0, 12);
    push_str(&mut s, short.as_str());
    proof {
        reveal_strlit("file");
        assert(slug@.take(48) =~= slug@.subrange(0, 48));
        assert(hash_chars@.take(12) =~= hash_chars@.subrange(0, 12));
        assert(s@ =~= file_name_text(path@));
    }
    s
}

/// `s` holds no `/`.
pub open spec fn no_slash(s: Seq<char>) -> bool {
    forall|i: int| 0 <= i < s.len() ==> s[i] != '/'
}

/// No `/`-separated part of `path` is exactly `@`.
pub open spec fn no_at_segment(path: Seq<char>) -> bool {
    forall|j: int|
        0 <= j < path.len() && #[trigger] path[j] == '@' ==> !((j == 0 || path[j - 1] == '/') && (j + 1
            == path.len() || path[j + 1] == '/'))
}

/// A key whose canonical text reads back as itself: the namespace and kind
/// hold no `/` and no part of the parent path is the separator `@`.
pub open spec fn key_well_formed(k: KeyView) -> bool {
    &&& no_slash(k.namespace)
    &&& no_slash(k.kind)
    &&& no_at_segment(k.parent_path)
}

proof fn lemma_encoded_no_slash(name: Seq<char>)
    ensures
        no_slash(url_encode(name)),
        forall|i: int| 0 <= i < url_encode(name).len() ==> url_encode(name)[i] != '@',
{
    lemma_url_encode_chars(name);
    assert forall|i: int| 0 <= i < url_encode(name).len() implies url_encode(name)[i] != '/' && url_encode(name)[i] != '@' by {
        assert(is_encoded_char(url_encode(name)[i]));
    }
}

/// The leaf `kind/<encoded name>` reads back as that one segment.
proof fn lemma_parse_leaf(kind: Seq<char>, name: Seq<char>)
    requires
        no_slash(kind),
    ensures
        parse_path_text(pair_text(kind, name)) == Ok::<Seq<SegmentView>, KeyError>(
            seq![SegmentView { kind, name }],
        ),
{
    let enc = url_encode(name);
    let leaf = pair_text(kind, name);
    lemma_encoded_no_slash(name);
    assert(leaf[kind.len() as int] == '/');
    assert forall|j: int| 0 <= j < kind.len() implies leaf[j] != '/' by {
        assert(leaf[j] == kind[j]);
    }
    lemma_split_on_at(leaf, '/', kind.len() as int);
    assert(leaf.subrange(0, kind.len() as int) =~= kind);
    assert(leaf.subrange(kind.len() as int + 1, leaf.len() as int) =~= enc);
    lemma_split_on_none(enc, '/');
    let parts = split_on(leaf, '/');
    assert(parts =~= seq![kind, enc]);
    lemma_url_decode_encode(name);
    assert(parts.subrange(2, parts.len() as int) =~= seq![]);
    assert(decode_pairs(parts.subrange(2, parts.len() as int)) == Ok::<Seq<SegmentView>, KeyError>(seq![]));
    assert(decode_pairs(parts) == Ok::<Seq<SegmentView>, KeyError>(seq![SegmentView { kind, name }] + seq![]));
    assert(seq![SegmentView { kind, name }] + seq![] =~= seq![SegmentView { kind, name }]);
}

/// The text after the namespace splits back into parent path and leaf.
proof fn lemma_split_leaf(parent_path: Seq<char>, leaf: Seq<char>)
    requires
        no_at_segment(parent_path),
    ensures
        split_leaf(path_slash(parent_path) + seq!['@', '/'] + leaf) == Some((parent_path, leaf)),
{
    let r = path_slash(parent_path) + seq!['@', '/'] + leaf;
    let at = seq!['@', '/'];
    let sep = seq!['/', '@', '/'];
    if parent_path.len() == 0 {
        assert(r =~= at + leaf);
        assert(r.subrange(0, 2) =~= at);
        assert(r.subrange(2, r.len() as int) =~= leaf);
    } else {
        let n = parent_path.len() as int;
        assert(r[n] == '/' && r[n + 1] == '@' && r[n + 2] == '/');
        assert forall|j: int| 0 <= j < n implies r[j] == parent_path[j] by {}
        if starts_with(r, at) {
            assert(r.subrange(0, 2)[0] == '@' && r.subrange(0, 2)[1] == '/');
            assert(parent_path[0] == '@');
            if n > 1 {
                assert(parent_path[1] == '/');
            }
            assert(false);
        }
        assert(r.subrange(n, n + 3) =~= sep);
        assert(occurs_at(r, sep, n));
        assert forall|j: int| 0 <= j < n implies !occurs_at(r, sep, j) by {
            if occurs_at(r, sep, j) {
                let w = r.subrange(j, j + 3);
                assert(w[0] == r[j] && w[1] == r[j + 1] && w[2] == r[j + 2]);
                assert(r[j] == '/' && r[j + 1] == '@' && r[j + 2] == '/');
                if j + 1 < n {
                    assert(parent_path[j + 1] == '@');
                    assert(parent_path[j] == '/');
                    if j + 2 < n {
                        assert(parent_path[j + 2] == '/');
                    }
                    assert(false);
                } else {
                    assert(j + 1 == n);
                    assert(false);
                }
            }
        }
        lemma_first_occurrence(r, sep, n);
        assert(r.subrange(0, n) =~= parent_path);
        assert(r.subrange(n + 3, r.len() as int) =~= leaf);
    }
}

/// Reading the canonical text of a well-formed key gives the key back.
pub proof fn lemma_canonical_round_trip(k: KeyView)
    requires
        key_well_formed(k),
    ensures
        parse_canonical_text(canonical_text(k)) == Ok::<KeyView, KeyError>(k),
{
    let text = canonical_text(k);
    let p = ns_prefix() + seq!['/'];
    let leaf = pair_text(k.kind, k.name);
    let tail = path_slash(k.parent_path) + seq!['@', '/'] + leaf;
    assert(text =~= p + (k.namespace + seq!['/'] + tail));
    assert(text.subrange(0, p.len() as int) =~= p);
    let rest = text.subrange(p.len() as int, text.len() as int);
    assert(rest =~= k.namespace + seq!['/'] + tail);
    let n = k.namespace.len() as int;
    assert(rest[n] == '/');
    assert forall|j: int| 0 <= j < n implies rest[j] != '/' by {
        assert(rest[j] == k.namespace[j]);
    }
    lemma_first_index(rest, '/', n);
    assert(rest.subrange(0, n) =~= k.namespace);
    assert(rest.subrange(n + 1, rest.len() as int) =~= tail);
    lemma_split_leaf(k.parent_path, leaf);
    lemma_parse_leaf(k.kind, k.name);
}

/// The canonical text of every key a listing matches starts with the
/// listing's prefix.
pub proof fn lemma_list_prefix_covers_children(l: ListView, k: KeyView)
    requires
        list_matches(l, k),
    ensures
        starts_with(canonical_text(k), list_prefix_text(l)),
{
    let base = ns_prefix() + seq!['/'] + l.parent.namespace + seq!['/'] + path_slash(l.parent.parent_path)
        + direct_child_sep() + seq!['/'];
    let text = canonical_text(k);
    assert(text =~= base + pair_text(k.kind, k.name));
    match l.kind {
        Some(kind) => {
            assert(text =~= (base + kind + seq!['/']) + url_encode(k.name));
            assert(text.subrange(0, list_prefix_text(l).len() as int) =~= list_prefix_text(l));
        },
        None => {
            assert(text.subrange(0, base.len() as int) =~= base);
        },
    }
}

/// Extending a parent chain by one pair gives the path of the children of
/// the key that pair names.
pub proof fn lemma_path_push(pairs: Seq<(Seq<char>, Seq<char>)>, kind: Seq<char>, name: Seq<char>)
    ensures
        path_text(pairs.push((kind, name))) == child_path(path_text(pairs), kind, name),
        key_as_parent(key_in(seq![], pairs, kind, name)).parent_path == path_text(
            pairs.push((kind, name)),
        ),
{
    let q = pairs.push((kind, name));
    assert(q.drop_last() =~= pairs);
    if pairs.len() == 0 {
        assert(path_text(q) == pair_text(kind, name));
        assert(child_path(path_text(pairs), kind, name) =~= pair_text(kind, name));
    } else {
        assert(path_text(pairs).len() > 0) by {
            if pairs.len() == 1 {
                assert(pair_text(pairs[0].0, pairs[0].1).len() > 0);
            } else {
                assert(path_text(pairs) == path_text(pairs.drop_last()) + seq!['/'] + pair_text(
                    pairs.last().0,
                    pairs.last().1,
                ));
            }
        }
        assert(child_path(path_text(pairs), kind, name) =~= path_text(pairs) + seq!['/'] + pair_text(
            kind,
            name,
        ));
    }
}

/// Reading the registration id of a class gives its namespace and name back,
/// unless either is blank.
#[verifier::rlimit(40)]
pub proof fn lemma_registration_id_round_trip(class_namespace: Seq<char>, class_name: Seq<char>)
    requires
        !is_blank(class_namespace),
        !is_blank(class_name),
    ensures
        parse_registration_id_text(registration_id_text(class_namespace, class_name)) == Ok::<
            (Seq<char>, Seq<char>),
            KeyError,
        >((class_namespace, class_name)),
{
    let a = namespace_word();
    let b = url_encode(class_namespace);
    let c = connector_class_word();
    let d = url_encode(class_name);
    let id = registration_id_text(class_namespace, class_name);
    lemma_encoded_no_slash(class_namespace);
    lemma_encoded_no_slash(class_name);
    let r1 = b + seq!['/'] + c + seq!['/'] + d;
    let r2 = c + seq!['/'] + d;
    assert(id =~= a + seq!['/'] + r1);
    assert(id[a.len() as int] == '/');
    assert forall|j: int| 0 <= j < a.len() implies id[j] != '/' by {
        assert(id[j] == a[j]);
    }
    lemma_split_on_at(id, '/', a.len() as int);
    assert(id.subrange(0, a.len() as int) =~= a);
    assert(id.subrange(a.len() as int + 1, id.len() as int) =~= r1);
    assert(r1[b.len() as int] == '/');
    assert forall|j: int| 0 <= j < b.len() implies r1[j] != '/' by {
        assert(r1[j] == b[j]);
    }
    lemma_split_on_at(r1, '/', b.len() as int);
    assert(r1.subrange(0, b.len() as int) =~= b);
    assert(r1.subrange(b.len() as int + 1, r1.len() as int) =~= r2);
    assert(r2[c.len() as int] == '/');
    assert forall|j: int| 0 <= j < c.len() implies r2[j] != '/' by {
        assert(r2[j] == c[j]);
    }
    lemma_split_on_at(r2, '/', c.len() as int);
    assert(r2.subrange(0, c.len() as int) =~= c);
    assert(r2.subrange(c.len() as int + 1, r2.len() as int) =~= d);
    lemma_split_on_none(d, '/');
    let parts = split_on(id, '/');
    assert(parts =~= seq![a, b, c, d]);
    lemma_url_decode_encode(class_namespace);
    lemma_url_decode_encode(class_name);
}

// ---------------------------------------------------------------------------
// Built keys

/// The parts a parent chain splits into at `/`: each kind, then its encoded
/// name.
pub open spec fn pairs_parts(pairs: Seq<(Seq<char>, Seq<char>)>) -> Seq<Seq<char>>
    decreases pairs.len(),
{
    if pairs.len() == 0 {
        seq![]
    } else {
        pairs_parts(pairs.drop_last()) + seq![pairs.last().0, url_encode(pairs.last().1)]
    }
}

/// The segments of a parent chain.
pub open spec fn pairs_segments(pairs: Seq<(Seq<char>, Seq<char>)>) -> Seq<SegmentView> {
    pairs.map_values(|p: (Seq<char>, Seq<char>)| SegmentView { kind: p.0, name: p.1 })
}

/// Whether the kinds of a parent chain hold no `/`.
pub open spec fn slash_free_kinds(pairs: Seq<(Seq<char>, Seq<char>)>) -> bool {
    forall|i: int, j: int| 0 <= i < pairs.len() && 0 <= j < pairs[i].0.len() ==> #[trigger] pairs[i].0[j] != '/'
}

/// Whether the kinds of a parent chain hold neither `/` nor `@`.
pub open spec fn plain_kinds(pairs: Seq<(Seq<char>, Seq<char>)>) -> bool {
    forall|i: int, j: int|
        0 <= i < pairs.len() && 0 <= j < pairs[i].0.len() ==> #[trigger] pairs[i].0[j] != '/' && pairs[i].0[j]
            != '@'
}

proof fn lemma_split_concat(x: Seq<char>, y: Seq<char>)
    ensures
        split_on(x + seq!['/'] + y, '/') == split_on(x, '/') + split_on(y, '/'),
    decreases x.len(),
{
    let s = x + seq!['/'] + y;
    if exists|i: int| 0 <= i < x.len() && x[i] == '/' {
        let i = choose|i: int| 0 <= i < x.len() && x[i] == '/' && forall|j: int| 0 <= j < i ==> x[j] != '/';
        assert(exists|i: int| 0 <= i < x.len() && x[i] == '/' && forall|j: int| 0 <= j < i ==> x[j] != '/') by {
            let k = choose|k: int| 0 <= k < x.len() && x[k] == '/';
            lemma_first_slash(x, k);
        }
        lemma_split_on_at(x, '/', i);
        lemma_split_on_at(s, '/', i);
        let x2 = x.subrange(i + 1, x.len() as int);
        assert(s.subrange(0, i) =~= x.subrange(0, i));
        assert(s.subrange(i + 1, s.len() as int) =~= x2 + seq!['/'] + y);
        lemma_split_concat(x2, y);
        assert(split_on(s, '/') =~= split_on(x, '/') + split_on(y, '/'));
    } else {
        lemma_split_on_none(x, '/');
        let n = x.len() as int;
        assert forall|j: int| 0 <= j < n implies s[j] != '/' by {
            assert(s[j] == x[j]);
        }
        lemma_split_on_at(s, '/', n);
        assert(s.subrange(0, n) =~= x);
        assert(s.subrange(n + 1, s.len() as int) =~= y);
        assert(split_on(s, '/') =~= split_on(x, '/') + split_on(y, '/'));
    }
}

proof fn lemma_first_slash(x: Seq<char>, k: int)
    requires
        0 <= k < x.len(),
        x[k] == '/',
    ensures
        exists|i: int| 0 <= i < x.len() && x[i] == '/' && forall|j: int| 0 <= j < i ==> x[j] != '/',
    decreases k,
{
    if exists|j: int| 0 <= j < k && x[j] == '/' {
        let j = choose|j: int| 0 <= j < k && x[j] == '/';
        lemma_first_slash(x, j);
    } else {
        assert(forall|j: int| 0 <= j < k ==> x[j] != '/');
    }
}

proof fn lemma_pair_parts(kind: Seq<char>, name: Seq<char>)
    requires
        no_slash(kind),
    ensures
        split_on(pair_text(kind, name), '/') == seq![kind, url_encode(name)],
{
    let enc = url_encode(name);
    let leaf = pair_text(kind, name);
    lemma_encoded_no_slash(name);
    assert(leaf =~= kind + seq!['/'] + enc);
    lemma_split_concat(kind, enc);
    lemma_split_on_none(kind, '/');
    lemma_split_on_none(enc, '/');
    assert(seq![kind] + seq![enc] =~= seq![kind, enc]);
}

proof fn lemma_path_parts(pairs: Seq<(Seq<char>, Seq<char>)>)
    requires
        pairs.len() > 0,
        slash_free_kinds(pairs),
    ensures
        split_on(path_text(pairs), '/') == pairs_parts(pairs),
        path_text(pairs).len() > 0,
    decreases pairs.len(),
{
    let last = pairs.last();
    assert(no_slash(last.0)) by {
        assert forall|j: int| 0 <= j < last.0.len() implies last.0[j] != '/' by {
            assert(pairs[pairs.len() - 1].0[j] != '/');
        }
    }
    lemma_pair_parts(last.0, last.1);
    assert(pair_text(last.0, last.1).len() > 0);
    if pairs.len() == 1 {
        assert(pairs.drop_last() =~= Seq::<(Seq<char>, Seq<char>)>::empty());
        assert(pairs_parts(pairs.drop_last()) == Seq::<Seq<char>>::empty());
        assert(pairs_parts(pairs) =~= seq![last.0, url_encode(last.1)]);
        assert(path_text(pairs) == pair_text(last.0, last.1));
    } else {
        let front = pairs.drop_last();
        assert(slash_free_kinds(front)) by {
            assert forall|i: int, j: int| 0 <= i < front.len() && 0 <= j < front[i].0.len() implies #[trigger] front[i].0[j]
                != '/' by {
                assert(front[i] == pairs[i]);
            }
        }
        lemma_path_parts(front);
        lemma_split_concat(path_text(front), pair_text(last.0, last.1));
    }
}

proof fn lemma_decode_concat(a: Seq<Seq<char>>, t: Seq<Seq<char>>)
    requires
        a.len() % 2 == 0,
    ensures
        decode_pairs(a + t) == match decode_pairs(a) {
            Ok(x) => match decode_pairs(t) {
                Ok(y) => Ok::<Seq<SegmentView>, KeyError>(x + y),
                Err(e) => Err(e),
            },
            Err(e) => Err(e),
        },
    decreases a.len(),
{
    if a.len() == 0 {
        assert(a + t =~= t);
        match decode_pairs(t) {
            Ok(y) => assert(Seq::<SegmentView>::empty() + y =~= y),
            Err(_) => {},
        }
    } else {
        let rest = a.subrange(2, a.len() as int);
        assert((a + t).subrange(2, (a + t).len() as int) =~= rest + t);
        assert((a + t)[1] == a[1] && (a + t)[0] == a[0]);
        lemma_decode_concat(rest, t);
        match (decode_pairs(rest), decode_pairs(t)) {
            (Ok(x), Ok(y)) => {
                assert(seq![SegmentView { kind: a[0], name: url_decode(a[1])->0 }] + (x + y) =~= (seq![
                    SegmentView { kind: a[0], name: url_decode(a[1])->0 },
                ] + x) + y);
            },
            _ => {},
        }
    }
}

proof fn lemma_decode_parts(pairs: Seq<(Seq<char>, Seq<char>)>)
    ensures
        pairs_parts(pairs).len() == 2 * pairs.len(),
        decode_pairs(pairs_parts(pairs)) == Ok::<Seq<SegmentView>, KeyError>(pairs_segments(pairs)),
    decreases pairs.len(),
{
    if pairs.len() == 0 {
        assert(pairs_segments(pairs) =~= Seq::<SegmentView>::empty());
    } else {
        let front = pairs.drop_last();
        let last = pairs.last();
        lemma_decode_parts(front);
        let tail = seq![last.0, url_encode(last.1)];
        lemma_decode_concat(pairs_parts(front), tail);
        lemma_url_decode_encode(last.1);
        assert(tail.len() == 2 && tail[0] == last.0 && tail[1] == url_encode(last.1));
        assert(url_decode(tail[1]) == Some(last.1));
        assert(tail.subrange(2, tail.len() as int) =~= Seq::<Seq<char>>::empty());
        assert(decode_pairs(tail.subrange(2, tail.len() as int)) == Ok::<Seq<SegmentView>, KeyError>(seq![]));
        assert(decode_pairs(tail) == Ok::<Seq<SegmentView>, KeyError>(
            seq![SegmentView { kind: last.0, name: last.1 }] + Seq::<SegmentView>::empty(),
        ));
        assert(pairs_segments(pairs) =~= pairs_segments(front) + seq![SegmentView { kind: last.0, name: last.1 }]);
        assert(seq![SegmentView { kind: last.0, name: last.1 }] + Seq::<SegmentView>::empty() =~= seq![
            SegmentView { kind: last.0, name: last.1 },
        ]);
    }
}

/// The parent path of a key built from a chain whose kinds hold no `/`
/// reads back as that chain, names decoded (no segments for no chain).
pub proof fn lemma_parent_path_round_trip(pairs: Seq<(Seq<char>, Seq<char>)>)
    requires
        slash_free_kinds(pairs),
    ensures
        parse_path_text(path_text(pairs)) == Ok::<Seq<SegmentView>, KeyError>(pairs_segments(pairs)),
{
    if pairs.len() == 0 {
        assert(pairs_segments(pairs) =~= Seq::<SegmentView>::empty());
    } else {
        lemma_path_parts(pairs);
        lemma_decode_parts(pairs);
        assert((2 * pairs.len()) % 2 == 0) by (nonlinear_arith);
    }
}

proof fn lemma_path_no_at(pairs: Seq<(Seq<char>, Seq<char>)>)
    requires
        plain_kinds(pairs),
    ensures
        forall|j: int| 0 <= j < path_text(pairs).len() ==> path_text(pairs)[j] != '@',
    decreases pairs.len(),
{
    if pairs.len() > 0 {
        let last = pairs.last();
        let p = pair_text(last.0, last.1);
        lemma_encoded_no_slash(last.1);
        assert forall|j: int| 0 <= j < p.len() implies p[j] != '@' by {
            if j < last.0.len() {
                assert(p[j] == pairs[pairs.len() - 1].0[j]);
            } else if j > last.0.len() {
                assert(p[j] == url_encode(last.1)[j - last.0.len() - 1]);
            }
        }
        if pairs.len() > 1 {
            let front = pairs.drop_last();
            assert(plain_kinds(front)) by {
                assert forall|i: int, j: int| 0 <= i < front.len() && 0 <= j < front[i].0.len() implies #[trigger] front[i].0[j]
                    != '/' && front[i].0[j] != '@' by {
                    assert(front[i] == pairs[i]);
                }
            }
            lemma_path_no_at(front);
            let t = path_text(pairs);
            assert forall|j: int| 0 <= j < t.len() implies t[j] != '@' by {
                let f = path_text(front);
                if j < f.len() {
                    assert(t[j] == f[j]);
                } else if j > f.len() {
                    assert(t[j] == p[j - f.len() - 1]);
                }
            }
        } else {
            assert(path_text(pairs) == p);
        }
    }
}

/// A key built from a namespace and kind without `/` and a chain whose
/// kinds hold neither `/` nor `@` is well formed: its canonical text reads
/// back as the key.
pub proof fn lemma_built_key_well_formed(
    namespace: Seq<char>,
    parents: Seq<(Seq<char>, Seq<char>)>,
    kind: Seq<char>,
    name: Seq<char>,
)
    requires
        no_slash(namespace),
        no_slash(kind),
        plain_kinds(parents),
    ensures
        key_well_formed(key_in(namespace, parents, kind, name)),
        parse_canonical_text(canonical_text(key_in(namespace, parents, kind, name))) == Ok::<
            KeyView,
            KeyError,
        >(key_in(namespace, parents, kind, name)),
{
    lemma_path_no_at(parents);
    lemma_canonical_round_trip(key_in(namespace, parents, kind, name));
}

/// Two well-formed keys with the same canonical text are the same key.
pub proof fn lemma_canonical_injective(k1: KeyView, k2: KeyView)
    requires
        key_well_formed(k1),
        key_well_formed(k2),
        canonical_text(k1) == canonical_text(k2),
    ensures
        k1 == k2,
{
    lemma_canonical_round_trip(k1);
    lemma_canonical_round_trip(k2);
}


/// A kind a listing may name: `/`-free.
pub open spec fn list_kind_plain(l: ListView) -> bool {
    match l.kind {
        Some(kind) => no_slash(kind),
        None => true,
    }
}

/// Two `/`-free words each followed by `/` at the head of one text are the
/// same word.
proof fn lemma_same_word(s: Seq<char>, a: Seq<char>, b: Seq<char>)
    requires
        no_slash(a),
        no_slash(b),
        a.len() < s.len(),
        b.len() < s.len(),
        s.subrange(0, a.len() as int) == a,
        s.subrange(0, b.len() as int) == b,
        s[a.len() as int] == '/',
        s[b.len() as int] == '/',
    ensures
        a == b,
{
    if a.len() < b.len() {
        assert(s.subrange(0, b.len() as int)[a.len() as int] == '/');
        assert(false);
    } else if b.len() < a.len() {
        assert(s.subrange(0, a.len() as int)[b.len() as int] == '/');
        assert(false);
    }
    assert(a =~= b);
}

/// A well-formed key whose canonical text starts with a listing's prefix is
/// a direct child the listing matches: a prefix scan yields no grandchildren
/// and no other kinds.
#[verifier::rlimit(50)]
#[verifier::spinoff_prover]
pub proof fn lemma_list_prefix_only_children(l: ListView, k: KeyView)
    requires
        key_well_formed(k),
        no_slash(l.parent.namespace),
        no_at_segment(l.parent.parent_path),
        list_kind_plain(l),
        starts_with(canonical_text(k), list_prefix_text(l)),
    ensures
        list_matches(l, k),
{
    let text = canonical_text(k);
    let p = ns_prefix() + seq!['/'];
    let ns = l.parent.namespace;
    let pp = l.parent.parent_path;
    let base = p + ns + seq!['/'] + path_slash(pp) + seq!['@', '/'];
    let lp = list_prefix_text(l);
    assert(lp.subrange(0, base.len() as int) =~= base);
    assert(text.subrange(0, base.len() as int) =~= base) by {
        assert forall|i: int| 0 <= i < base.len() implies text[i] == base[i] by {
            assert(text.subrange(0, lp.len() as int)[i] == lp[i]);
            assert(lp.subrange(0, base.len() as int)[i] == lp[i]);
        }
    }
    let suffix = text.subrange(base.len() as int, text.len() as int);
    assert(text =~= base + suffix);
    let tail = path_slash(pp) + seq!['@', '/'] + suffix;
    assert(text =~= p + (ns + seq!['/'] + tail));
    assert(text.subrange(0, p.len() as int) =~= p);
    let rest = text.subrange(p.len() as int, text.len() as int);
    assert(rest =~= ns + seq!['/'] + tail);
    let n = ns.len() as int;
    assert(rest[n] == '/');
    assert forall|j: int| 0 <= j < n implies rest[j] != '/' by {
        assert(rest[j] == ns[j]);
    }
    lemma_first_index(rest, '/', n);
    assert(rest.subrange(0, n) =~= ns);
    assert(rest.subrange(n + 1, rest.len() as int) =~= tail);
    lemma_split_leaf(pp, suffix);
    lemma_canonical_round_trip(k);
    assert(k.namespace == ns);
    assert(k.parent_path == pp);
    match l.kind {
        Some(kind) => {
            let leaf = pair_text(k.kind, k.name);
            assert(text =~= base + leaf);
            assert(suffix =~= leaf);
            assert(lp =~= base + kind + seq!['/']);
            assert forall|i: int| 0 <= i <= kind.len() implies suffix[i] == (kind + seq!['/'])[i] by {
                assert(text.subrange(0, lp.len() as int)[base.len() + i] == lp[base.len() + i]);
            }
            assert(suffix.subrange(0, kind.len() as int) =~= kind);
            assert(suffix.subrange(0, k.kind.len() as int) =~= k.kind);
            assert(suffix[k.kind.len() as int] == '/');
            lemma_encoded_no_slash(k.name);
            lemma_same_word(suffix, kind, k.kind);
        },
        None => {},
    }
}


/// A registration id is accepted exactly when it splits at `/` into
/// `Namespace`, an encoded namespace, `ConnectorClass` and an encoded class
/// name, both decoding to non-blank text; what it gives is the two decoded.
pub proof fn lemma_registration_id_accepted(id: Seq<char>)
    ensures
        parse_registration_id_text(id) is Ok <==> {
            let parts = split_on(id, '/');
            &&& parts.len() == 4
            &&& parts[0] == namespace_word()
            &&& parts[2] == connector_class_word()
            &&& url_decode(parts[1]) matches Some(a) && !is_blank(a)
            &&& url_decode(parts[3]) matches Some(b) && !is_blank(b)
        },
        parse_registration_id_text(id) matches Ok((a, b)) ==> a == url_decode(split_on(id, '/')[1])->0
            && b == url_decode(split_on(id, '/')[3])->0,
{
}

/// Every canonical key starts with `@Namespace/`, its namespace and `/`.
pub proof fn lemma_canonical_namespace_prefix(k: KeyView)
    ensures
        starts_with(canonical_text(k), ns_prefix() + seq!['/'] + k.namespace + seq!['/']),
{
    let head = ns_prefix() + seq!['/'] + k.namespace + seq!['/'];
    let text = canonical_text(k);
    assert(text =~= head + (path_slash(k.parent_path) + direct_child_sep() + seq!['/'] + pair_text(
        k.kind,
        k.name,
    )));
    assert(text.subrange(0, head.len() as int) =~= head);
}

} // verus!
