//! Content-addressed object keys, object metadata and stored representations
//! of session objects, files and artifacts.

use vstd::prelude::*;
use crate::text::{
    chars_of, is_ascii_alphanumeric, ascii_alphanumeric, lemma_join_cons, lemma_split_join,
    lemma_split_on_at, lemma_split_on_none,
    owned, push_char, push_str, split_chars, split_on, starts_with, str_eq, string_of,
    strip_suffix_chars, strip_suffix_text, views_of,
};
use crate::fields::{
    fields_distinct,
    clone_metadata, meta_lookup, meta_map, meta_pairs, metadata_get, metadata_insert,
    metadata_remove,
};
use crate::compress::{gunzip, gunzip_read, gzip, gzip_result, gzip_stream, unzstd, unzstd_read};
use crate::digest::{hex_lower, sha256_digest, sha256_hex};
use crate::text::{
    ascii_lower, blank, decimal_string, decimal_text, is_blank, last_part, last_part_chars,
    to_ascii_lower, trim_end_chars, trim_end_text, trim_start_chars, trim_start_text,
};
use crate::text::str_from_utf8;
use vstd::string::StringSliceAdditionalSpecFns;
use vstd::utf8::{encode_utf8, is_char_boundary, valid_utf8};
use crate::urlcodec::{
    decode, encode, lemma_url_decode_encode, lemma_url_encode_chars, url_decode,
    url_encode,
};

verus! {

/// Media type of stored tool results.
pub const TOOL_RESULT_MEDIA_TYPE: &'static str = "text/plain; charset=utf-8";

/// Metadata field naming what an object is.
pub const METADATA_KIND: &'static str = "kind";

/// `kind` of a tool result.
pub const METADATA_KIND_TOOL_RESULT: &'static str = "tool_result";

/// `kind` of an artifact.
pub const METADATA_KIND_ARTIFACT: &'static str = "artifact";

/// `kind` of a file.
pub const METADATA_KIND_FILE: &'static str = "file";

/// Metadata field naming the agent that owns a session object.
pub const METADATA_AGENT: &'static str = "agent";

/// Metadata field naming the tool call of a tool result.
pub const METADATA_TOOL_CALL_ID: &'static str = "tool_call_id";

/// Metadata field naming the tool of a tool result.
pub const METADATA_TOOL_NAME: &'static str = "tool_name";

/// Metadata field of the content encoding, as objects written earlier kept it.
pub const METADATA_CONTENT_ENCODING: &'static str = "content_encoding";

/// Metadata field of the size of the logical (decoded) bytes.
pub const METADATA_UNCOMPRESSED_SIZE_BYTES: &'static str = "uncompressed_size_bytes";

/// Metadata field of the SHA-256 of the logical (decoded) bytes.
pub const METADATA_UNCOMPRESSED_SHA256: &'static str = "uncompressed_sha256";

/// The gzip content encoding.
pub const CONTENT_ENCODING_GZIP: &'static str = "gzip";

/// The zstd content encoding.
pub const CONTENT_ENCODING_ZSTD: &'static str = "zstd";

/// Stored bytes are compressed only when that saves at least this share.
pub const MIN_COMPRESSION_SAVINGS_PERCENT: u64 = 10;

/// The largest logical object, in bytes (50 MiB).
pub const MAX_LOGICAL_OBJECT_BYTES: u64 = 52428800;

/// The largest logical tool result kept whole, in bytes (8 MiB).
pub const MAX_TOOL_RESULT_LOGICAL_BYTES: usize = 8388608;

/// What ends a tool result cut to the size limit.
pub const TOOL_RESULT_TRUNCATION_MARKER: &'static str = "\n\n...[CONTENT TRUNCATED DUE TO TOOL RESULT SIZE LIMIT]";

/// The session a session object belongs to.
#[derive(Debug, Clone)]
pub struct SessionCasScope {
    pub ns: String,
    pub agent: String,
    pub session_id: String,
}

impl SessionCasScope {
    /// The scope of `session_id` of `agent` in namespace `ns`.
    pub fn new(ns: &str, agent: &str, session_id: &str) -> (s: Self)
        ensures
            s.ns@ == ns@,
            s.agent@ == agent@,
            s.session_id@ == session_id@,
    {
        SessionCasScope { ns: owned(ns), agent: owned(agent), session_id: owned(session_id) }
    }
}

/// The message part a session object holds.
#[derive(Debug, Clone)]
pub struct SessionObjectIdentity {
    pub message_id: String,
    pub part_id: String,
}

impl SessionObjectIdentity {
    /// The identity of part `part_id` of message `message_id`.
    pub fn new(message_id: &str, part_id: &str) -> (s: Self)
        ensures
            s.message_id@ == message_id@,
            s.part_id@ == part_id@,
    {
        SessionObjectIdentity { message_id: owned(message_id), part_id: owned(part_id) }
    }
}

/// A session object key read back into its scope and identity.
#[derive(Debug, Clone)]
pub struct SessionObjectKey {
    pub scope: SessionCasScope,
    pub identity: SessionObjectIdentity,
}

/// A content-addressed store over an object store `S`.
pub struct CasStore<S> {
    objects: S,
}

/// A character that an object key segment keeps as it is.
pub open spec fn is_segment_char(c: char) -> bool {
    is_ascii_alphanumeric(c) || c == '-' || c == '_' || c == '.'
}

/// `s` with every character but ASCII letters, digits, `-`, `_` and `.`
/// replaced by `_`.
pub open spec fn segment_text(s: Seq<char>) -> Seq<char> {
    s.map_values(|c: char| if is_segment_char(c) { c } else { '_' })
}

/// The object key of a session message part.
pub open spec fn session_key_text(
    ns: Seq<char>,
    session_id: Seq<char>,
    message_id: Seq<char>,
    part_id: Seq<char>,
) -> Seq<char> {
    "cas/"@ + url_encode(ns) + "/sessions/"@ + segment_text(session_id) + "/messages/"@
        + segment_text(message_id) + "/"@ + segment_text(part_id) + ".txt"@
}

/// The prefix of every object key of a session.
pub open spec fn session_prefix_text(ns: Seq<char>, session_id: Seq<char>) -> Seq<char> {
    "cas/"@ + url_encode(ns) + "/sessions/"@ + segment_text(session_id) + "/"@
}

/// `value` as an object key segment.
pub fn object_key_segment(value: &str) -> (r: String)
    ensures
        r@ == segment_text(value@),
{
    let v = chars_of(value);
    let mut r = String::new();
    let mut i: usize = 0;
    while i < v.len()
        invariant
            i <= v.len(),
            v@ == value@,
            r@ == segment_text(v@.take(i as int)),
        decreases v.len() - i,
    {
        let c = v[i];
        if ascii_alphanumeric(c) || c == '-' || c == '_' || c == '.' {
            push_char(&mut r, c);
        } else {
            push_char(&mut r, '_');
        }
        proof {
            assert(segment_text(v@.take(i + 1)) =~= segment_text(v@.take(i as int)).push(
                if is_segment_char(c) { c } else { '_' },
            ));
        }
        i += 1;
    }
    assert(v@.take(v.len() as int) =~= v@);
    r
}

/// `value` percent-encoded as one object key segment.
pub fn encoded_object_key_segment(value: &str) -> (r: String)
    ensures
        r@ == url_encode(value@),
{
    encode(value)
}

/// The object key of part `identity` of the session `scope`.
pub fn session_object_key(scope: &SessionCasScope, identity: &SessionObjectIdentity) -> (r: String)
    ensures
        r@ == session_key_text(scope.ns@, scope.session_id@, identity.message_id@, identity.part_id@),
{
    let mut r = String::new();
    push_str(&mut r, "cas/");
    push_str(&mut r, encoded_object_key_segment(scope.ns.as_str()).as_str());
    push_str(&mut r, "/sessions/");
    push_str(&mut r, object_key_segment(scope.session_id.as_str()).as_str());
    push_str(&mut r, "/messages/");
    push_str(&mut r, object_key_segment(identity.message_id.as_str()).as_str());
    push_str(&mut r, "/");
    push_str(&mut r, object_key_segment(identity.part_id.as_str()).as_str());
    push_str(&mut r, ".txt");
    r
}

/// The prefix of every object key of the session `scope`.
pub fn session_object_key_prefix(scope: &SessionCasScope) -> (r: String)
    ensures
        r@ == session_prefix_text(scope.ns@, scope.session_id@),
{
    let mut r = String::new();
    push_str(&mut r, "cas/");
    push_str(&mut r, encoded_object_key_segment(scope.ns.as_str()).as_str());
    push_str(&mut r, "/sessions/");
    push_str(&mut r, object_key_segment(scope.session_id.as_str()).as_str());
    push_str(&mut r, "/");
    r
}

impl<S> CasStore<S> {
    /// A store over `objects`.
    pub fn new(objects: S) -> (s: Self)
        ensures
            s.objects_view() == objects,
    {
        CasStore { objects }
    }

    /// The object store underneath.
    pub closed spec fn objects_view(&self) -> S {
        self.objects
    }

    /// The object store underneath.
    pub fn object_store(&self) -> (r: &S)
        ensures
            *r == self.objects_view(),
    {
        &self.objects
    }

    /// The object key of part `identity` of the session `scope`.
    pub fn session_object_key(&self, scope: &SessionCasScope, identity: &SessionObjectIdentity) -> (r:
        String)
        ensures
            r@ == session_key_text(
                scope.ns@,
                scope.session_id@,
                identity.message_id@,
                identity.part_id@,
            ),
    {
        session_object_key(scope, identity)
    }
}

/// Why a content-addressed object operation failed.
#[derive(Debug, Clone)]
pub enum CasError {
    /// A tool result larger than the logical object limit.
    ToolResultTooLarge,
    /// A key outside the session it was asked for.
    OutsideSessionScope,
    /// A key that is not `cas/<ns>/sessions/<s>/messages/<m>/<part>.txt`.
    NotSessionKey,
    /// A namespace segment whose escapes are not UTF-8.
    NamespaceEncoding { detail: String },
    /// A namespace segment that is not the encoding of what it decodes to.
    NamespaceNotCanonical,
    /// A session key file name without `.txt`.
    MissingTxtSuffix,
    /// A key field that is not a plain object key segment.
    UnsafeField { field: String },
    /// Object metadata naming another agent than the requested one.
    AgentMismatch { key: String },
    /// Object metadata without an agent.
    MissingAgent { key: String },
    /// A content encoding other than gzip or zstd.
    UnsupportedEncoding { key: String, encoding: String },
    /// Raw stored bytes larger than the logical object limit.
    ObjectTooLarge { key: String },
    /// Encoded bytes that do not decode.
    InvalidEncodedBytes { key: String, encoding: String, detail: String },
    /// Encoded bytes that decode beyond the logical object limit.
    ExpandsTooLarge { key: String },
    /// Compression failed.
    Compression { detail: String },
}

/// A [`CasError`] with the texts it carries.
pub enum CasErrorView {
    ToolResultTooLarge,
    OutsideSessionScope,
    NotSessionKey,
    NamespaceEncoding,
    NamespaceNotCanonical,
    MissingTxtSuffix,
    UnsafeField(Seq<char>),
    AgentMismatch(Seq<char>),
    MissingAgent(Seq<char>),
    UnsupportedEncoding(Seq<char>, Seq<char>),
    ObjectTooLarge(Seq<char>),
    InvalidEncodedBytes(Seq<char>, Seq<char>),
    ExpandsTooLarge(Seq<char>),
    Compression,
}

impl View for CasError {
    type V = CasErrorView;

    /// The kind of the error and the texts it carries; the details that an
    /// outside error gave are left out.
    open spec fn view(&self) -> CasErrorView {
        match self {
            CasError::ToolResultTooLarge => CasErrorView::ToolResultTooLarge,
            CasError::OutsideSessionScope => CasErrorView::OutsideSessionScope,
            CasError::NotSessionKey => CasErrorView::NotSessionKey,
            CasError::NamespaceEncoding { .. } => CasErrorView::NamespaceEncoding,
            CasError::NamespaceNotCanonical => CasErrorView::NamespaceNotCanonical,
            CasError::MissingTxtSuffix => CasErrorView::MissingTxtSuffix,
            CasError::UnsafeField { field } => CasErrorView::UnsafeField(field@),
            CasError::AgentMismatch { key } => CasErrorView::AgentMismatch(key@),
            CasError::MissingAgent { key } => CasErrorView::MissingAgent(key@),
            CasError::UnsupportedEncoding { key, encoding } => CasErrorView::UnsupportedEncoding(
                key@,
                encoding@,
            ),
            CasError::ObjectTooLarge { key } => CasErrorView::ObjectTooLarge(key@),
            CasError::InvalidEncodedBytes { key, encoding, .. } => CasErrorView::InvalidEncodedBytes(
                key@,
                encoding@,
            ),
            CasError::ExpandsTooLarge { key } => CasErrorView::ExpandsTooLarge(key@),
            CasError::Compression { .. } => CasErrorView::Compression,
        }
    }
}

/// The description of an error.
pub open spec fn cas_error_text(e: CasError) -> Seq<char> {
    match e {
        CasError::ToolResultTooLarge => "tool result exceeds the maximum supported logical size"@,
        CasError::OutsideSessionScope => "CAS object key is outside the requested session scope"@,
        CasError::NotSessionKey => "CAS object key is not a session object key"@,
        CasError::NamespaceEncoding { detail } => "CAS object key namespace is not valid percent-encoding: "@
            + detail@,
        CasError::NamespaceNotCanonical => "CAS object key namespace is not canonical"@,
        CasError::MissingTxtSuffix => "CAS object key must end with .txt"@,
        CasError::UnsafeField { field } => "CAS object key field '"@ + field@
            + "' contains unsafe characters"@,
        CasError::AgentMismatch { key } => "CAS object key '"@ + key@
            + "' metadata field 'agent' does not match requested scope"@,
        CasError::MissingAgent { key } => "CAS object key '"@ + key@ + "' metadata is missing agent"@,
        CasError::UnsupportedEncoding { key, encoding } => "CAS object '"@ + key@
            + "' uses unsupported content encoding '"@ + encoding@ + "'"@,
        CasError::ObjectTooLarge { key } => "CAS object '"@ + key@ + "' exceeds the maximum supported size"@,
        CasError::InvalidEncodedBytes { key, encoding, detail } => "CAS object '"@ + key@
            + "' has invalid "@ + encoding@ + " bytes: "@ + detail@,
        CasError::ExpandsTooLarge { key } => "CAS object '"@ + key@
            + "' expands beyond the maximum supported size"@,
        CasError::Compression { detail } => detail@,
    }
}

impl CasError {
    /// A description of the error.
    pub fn message(&self) -> (m: String)
        ensures
            m@ == cas_error_text(*self),
    {
        let mut m = String::new();
        match self {
            CasError::ToolResultTooLarge => {
                push_str(&mut m, "tool result exceeds the maximum supported logical size");
            },
            CasError::OutsideSessionScope => {
                push_str(&mut m, "CAS object key is outside the requested session scope");
            },
            CasError::NotSessionKey => {
                push_str(&mut m, "CAS object key is not a session object key");
            },
            CasError::NamespaceEncoding { detail } => {
                push_str(&mut m, "CAS object key namespace is not valid percent-encoding: ");
                push_str(&mut m, detail.as_str());
            },
            CasError::NamespaceNotCanonical => {
                push_str(&mut m, "CAS object key namespace is not canonical");
            },
            CasError::MissingTxtSuffix => {
                push_str(&mut m, "CAS object key must end with .txt");
            },
            CasError::UnsafeField { field } => {
                push_str(&mut m, "CAS object key field '");
                push_str(&mut m, field.as_str());
                push_str(&mut m, "' contains unsafe characters");
            },
            CasError::AgentMismatch { key } => {
                push_str(&mut m, "CAS object key '");
                push_str(&mut m, key.as_str());
                push_str(&mut m, "' metadata field 'agent' does not match requested scope");
            },
            CasError::MissingAgent { key } => {
                push_str(&mut m, "CAS object key '");
                push_str(&mut m, key.as_str());
                push_str(&mut m, "' metadata is missing agent");
            },
            CasError::UnsupportedEncoding { key, encoding } => {
                push_str(&mut m, "CAS object '");
                push_str(&mut m, key.as_str());
                push_str(&mut m, "' uses unsupported content encoding '");
                push_str(&mut m, encoding.as_str());
                push_str(&mut m, "'");
            },
            CasError::ObjectTooLarge { key } => {
                push_str(&mut m, "CAS object '");
                push_str(&mut m, key.as_str());
                push_str(&mut m, "' exceeds the maximum supported size");
            },
            CasError::InvalidEncodedBytes { key, encoding, detail } => {
                push_str(&mut m, "CAS object '");
                push_str(&mut m, key.as_str());
                push_str(&mut m, "' has invalid ");
                push_str(&mut m, encoding.as_str());
                push_str(&mut m, " bytes: ");
                push_str(&mut m, detail.as_str());
            },
            CasError::ExpandsTooLarge { key } => {
                push_str(&mut m, "CAS object '");
                push_str(&mut m, key.as_str());
                push_str(&mut m, "' expands beyond the maximum supported size");
            },
            CasError::Compression { detail } => {
                push_str(&mut m, detail.as_str());
            },
        }
        m
    }
}

/// `Ok` exactly when `key` lies inside the session `scope`.
pub fn ensure_session_key_scope(scope: &SessionCasScope, key: &str) -> (r: Result<(), CasError>)
    ensures
        r is Ok <==> starts_with(key@, session_prefix_text(scope.ns@, scope.session_id@)),
        r matches Err(e) ==> e@ == CasErrorView::OutsideSessionScope,
{
    let prefix = chars_of(session_object_key_prefix(scope).as_str());
    let v = chars_of(key);
    if crate::text::chars_match_at(&v, 0, &prefix) {
        Ok(())
    } else {
        Err(CasError::OutsideSessionScope)
    }
}

/// What reading a session object key gives: its namespace, session,
/// message and part.
pub open spec fn parse_session_key_text(key: Seq<char>) -> Result<
    (Seq<char>, Seq<char>, Seq<char>, Seq<char>),
    CasErrorView,
> {
    let p = split_on(key, '/');
    if !(p.len() == 7 && p[0] == "cas"@ && p[2] == "sessions"@ && p[4] == "messages"@) {
        Err(CasErrorView::NotSessionKey)
    } else {
        match url_decode(p[1]) {
            None => Err(CasErrorView::NamespaceEncoding),
            Some(ns) => if url_encode(ns) != p[1] {
                Err(CasErrorView::NamespaceNotCanonical)
            } else {
                match strip_suffix_text(p[6], ".txt"@) {
                    None => Err(CasErrorView::MissingTxtSuffix),
                    Some(part) => if segment_text(p[3]) != p[3] {
                        Err(CasErrorView::UnsafeField("session_id"@))
                    } else if segment_text(p[5]) != p[5] {
                        Err(CasErrorView::UnsafeField("message_id"@))
                    } else if segment_text(part) != part {
                        Err(CasErrorView::UnsafeField("part_id"@))
                    } else {
                        Ok((ns, p[3], p[5], part))
                    },
                }
            },
        }
    }
}

/// `k` holds the namespace, session, message and part `v`, and no agent.
pub open spec fn session_key_is(k: SessionObjectKey, v: (Seq<char>, Seq<char>, Seq<char>, Seq<char>)) -> bool {
    &&& k.scope.ns@ == v.0
    &&& k.scope.agent@ == Seq::<char>::empty()
    &&& k.scope.session_id@ == v.1
    &&& k.identity.message_id@ == v.2
    &&& k.identity.part_id@ == v.3
}

fn is_word(v: &Vec<char>, word: &str) -> (r: bool)
    ensures
        r == (v@ == word@),
{
    crate::text::chars_eq(v, &chars_of(word))
}

/// Whether `value` is already a plain object key segment.
fn is_plain_segment(value: &str) -> (r: bool)
    ensures
        r == (segment_text(value@) == value@),
{
    str_eq(object_key_segment(value).as_str(), value)
}

/// Reads a session object key back into its scope (without agent) and
/// identity.
pub fn parse_session_object_key(key: &str) -> (r: Result<SessionObjectKey, CasError>)
    ensures
        match (r, parse_session_key_text(key@)) {
            (Ok(k), Ok(v)) => session_key_is(k, v),
            (Err(e), Err(f)) => e@ == f,
            _ => false,
        },
{
    let parts = split_chars(&chars_of(key), '/');
    let ghost p = views_of(parts@);
    proof {
        assert forall|i: int| 0 <= i < parts.len() implies p[i] == parts@[i]@ by {}
    }
    if !(parts.len() == 7 && is_word(&parts[0], "cas") && is_word(&parts[2], "sessions") && is_word(
        &parts[4],
        "messages",
    )) {
        return Err(CasError::NotSessionKey);
    }
    let encoded_ns = string_of(&parts[1]);
    let ns = match decode(encoded_ns.as_str()) {
        Ok(ns) => ns,
        Err(e) => {
            return Err(CasError::NamespaceEncoding { detail: crate::urlcodec::utf8_error_text(&e) });
        },
    };
    if !str_eq(encoded_object_key_segment(ns.as_str()).as_str(), encoded_ns.as_str()) {
        return Err(CasError::NamespaceNotCanonical);
    }
    let part = match strip_suffix_chars(&parts[6], ".txt") {
        Some(part) => string_of(&part),
        None => {
            return Err(CasError::MissingTxtSuffix);
        },
    };
    let session_id = string_of(&parts[3]);
    let message_id = string_of(&parts[5]);
    if !is_plain_segment(session_id.as_str()) {
        return Err(CasError::UnsafeField { field: owned("session_id") });
    }
    if !is_plain_segment(message_id.as_str()) {
        return Err(CasError::UnsafeField { field: owned("message_id") });
    }
    if !is_plain_segment(part.as_str()) {
        return Err(CasError::UnsafeField { field: owned("part_id") });
    }
    proof {
        reveal_strlit("");
        assert(p == split_on(key@, '/'));
        assert(url_decode(p[1]) == Some(ns@));
        assert(strip_suffix_text(p[6], ".txt"@) == Some(part@));
        assert(parse_session_key_text(key@) == Ok::<_, CasErrorView>((ns@, p[3], p[5], part@)));
        assert(""@ =~= Seq::<char>::empty());
    }
    let k = SessionObjectKey {
        scope: SessionCasScope::new(ns.as_str(), "", session_id.as_str()),
        identity: SessionObjectIdentity::new(message_id.as_str(), part.as_str()),
    };
    assert(session_key_is(k, (ns@, p[3], p[5], part@)));
    Ok(k)
}

/// Cutting `a/rest` at `/`, when `a` holds no `/`, gives `a` and then the
/// parts of `rest`.
proof fn lemma_split_cons(a: Seq<char>, rest: Seq<char>)
    requires
        forall|i: int| 0 <= i < a.len() ==> a[i] != '/',
    ensures
        split_on(a + seq!['/'] + rest, '/') == seq![a] + split_on(rest, '/'),
{
    let s = a + seq!['/'] + rest;
    assert forall|j: int| 0 <= j < a.len() implies s[j] != '/' by {
        assert(s[j] == a[j]);
    }
    lemma_split_on_at(s, '/', a.len() as int);
    assert(s.subrange(0, a.len() as int) =~= a);
    assert(s.subrange(a.len() as int + 1, s.len() as int) =~= rest);
}

/// An object key segment holds only segment characters; in particular no `/`.
proof fn lemma_segment_chars(s: Seq<char>)
    ensures
        forall|i: int| 0 <= i < segment_text(s).len() ==> is_segment_char(#[trigger] segment_text(s)[i]),
        segment_text(segment_text(s)) == segment_text(s),
{
    assert(segment_text(segment_text(s)) =~= segment_text(s));
}

/// A percent-encoded segment holds no `/`.
proof fn lemma_encoded_no_slash(s: Seq<char>)
    ensures
        forall|i: int| 0 <= i < url_encode(s).len() ==> #[trigger] url_encode(s)[i] != '/',
{
    lemma_url_encode_chars(s);
}

/// Reading the object key of a session part gives back its namespace and the
/// segments of its session, message and part.
pub proof fn lemma_session_key_round_trip(
    ns: Seq<char>,
    session_id: Seq<char>,
    message_id: Seq<char>,
    part_id: Seq<char>,
)
    ensures
        parse_session_key_text(session_key_text(ns, session_id, message_id, part_id)) == Ok::<
            _,
            CasErrorView,
        >((ns, segment_text(session_id), segment_text(message_id), segment_text(part_id))),
{
    let e = url_encode(ns);
    let s = segment_text(session_id);
    let m = segment_text(message_id);
    let p = segment_text(part_id);
    reveal_strlit("cas/");
    reveal_strlit("cas");
    reveal_strlit("/sessions/");
    reveal_strlit("sessions");
    reveal_strlit("/messages/");
    reveal_strlit("messages");
    reveal_strlit("/");
    reveal_strlit(".txt");
    lemma_segment_chars(session_id);
    lemma_segment_chars(message_id);
    lemma_segment_chars(part_id);
    lemma_encoded_no_slash(ns);
    let file = p + ".txt"@;
    let t5 = m + seq!['/'] + file;
    let t4 = "messages"@ + seq!['/'] + t5;
    let t3 = s + seq!['/'] + t4;
    let t2 = "sessions"@ + seq!['/'] + t3;
    let t1 = e + seq!['/'] + t2;
    let key = "cas"@ + seq!['/'] + t1;
    assert(session_key_text(ns, session_id, message_id, part_id) =~= key);
    assert forall|i: int| 0 <= i < file.len() implies file[i] != '/' by {
        if i < p.len() {
            assert(file[i] == p[i]);
            assert(is_segment_char(p[i]));
        }
    }
    lemma_split_on_none(file, '/');
    lemma_split_cons(m, file);
    lemma_split_cons("messages"@, t5);
    lemma_split_cons(s, t4);
    lemma_split_cons("sessions"@, t3);
    lemma_split_cons(e, t2);
    lemma_split_cons("cas"@, t1);
    let parts = split_on(key, '/');
    assert(parts =~= seq!["cas"@, e, "sessions"@, s, "messages"@, m, file]);
    lemma_url_decode_encode(ns);
    assert(file.subrange(file.len() - 4, file.len() as int) =~= ".txt"@);
    assert(file.subrange(0, file.len() - 4) =~= p);
}

/// The object key of a session part lies inside its session's prefix.
pub proof fn lemma_session_key_in_scope(
    ns: Seq<char>,
    session_id: Seq<char>,
    message_id: Seq<char>,
    part_id: Seq<char>,
)
    ensures
        starts_with(
            session_key_text(ns, session_id, message_id, part_id),
            session_prefix_text(ns, session_id),
        ),
{
    reveal_strlit("/messages/");
    reveal_strlit("/");
    let prefix = session_prefix_text(ns, session_id);
    let key = session_key_text(ns, session_id, message_id, part_id);
    assert(key =~= prefix + ("messages/"@ + segment_text(message_id) + "/"@ + segment_text(part_id)
        + ".txt"@)) by {
        reveal_strlit("messages/");
    }
    assert(key.subrange(0, prefix.len() as int) =~= prefix);
}

/// A key that reads as a session object key is exactly the key of what it
/// reads as.
pub proof fn lemma_parsed_session_key_renders_back(key: Seq<char>)
    requires
        parse_session_key_text(key) is Ok,
    ensures
        parse_session_key_text(key) matches Ok(v) && session_key_text(v.0, v.1, v.2, v.3) == key,
{
    let p = split_on(key, '/');
    let v = parse_session_key_text(key)->Ok_0;
    lemma_split_join(key, '/');
    assert(p =~= seq![p[0]] + p.skip(1));
    assert(p.skip(1) =~= seq![p[1]] + p.skip(2));
    assert(p.skip(2) =~= seq![p[2]] + p.skip(3));
    assert(p.skip(3) =~= seq![p[3]] + p.skip(4));
    assert(p.skip(4) =~= seq![p[4]] + p.skip(5));
    assert(p.skip(5) =~= seq![p[5]] + p.skip(6));
    assert(p.skip(6) =~= seq![p[6]]);
    lemma_join_cons(p[5], p.skip(6), '/');
    lemma_join_cons(p[4], p.skip(5), '/');
    lemma_join_cons(p[3], p.skip(4), '/');
    lemma_join_cons(p[2], p.skip(3), '/');
    lemma_join_cons(p[1], p.skip(2), '/');
    lemma_join_cons(p[0], p.skip(1), '/');
    assert(p[6] =~= v.3 + ".txt"@);
    reveal_strlit("cas/");
    reveal_strlit("cas");
    reveal_strlit("/sessions/");
    reveal_strlit("sessions");
    reveal_strlit("/messages/");
    reveal_strlit("messages");
    reveal_strlit("/");
    assert(session_key_text(v.0, v.1, v.2, v.3) =~= p[0] + seq!['/'] + (p[1] + seq!['/'] + (p[2]
        + seq!['/'] + (p[3] + seq!['/'] + (p[4] + seq!['/'] + (p[5] + seq!['/'] + p[6]))))));
}

/// The metadata of a stored object.
#[derive(Debug, Clone)]
pub struct ObjectMetadata {
    pub media_type: String,
    pub size_bytes: u64,
    pub sha256: String,
    pub filename: String,
    pub content_encoding: String,
    /// Free-form `(field, value)` pairs; a later pair of a field overrides an
    /// earlier one.
    pub metadata: Vec<(String, String)>,
}

impl Default for ObjectMetadata {
    fn default() -> (r: Self)
        ensures
            r.media_type@ == Seq::<char>::empty(),
            r.size_bytes == 0,
            r.sha256@ == Seq::<char>::empty(),
            r.filename@ == Seq::<char>::empty(),
            r.content_encoding@ == Seq::<char>::empty(),
            r.metadata@ == Seq::<(String, String)>::empty(),
    {
        ObjectMetadata {
            media_type: String::new(),
            size_bytes: 0,
            sha256: String::new(),
            filename: String::new(),
            content_encoding: String::new(),
            metadata: Vec::new(),
        }
    }
}

/// A stored object: its bytes and metadata.
#[derive(Debug, Clone)]
pub struct StoredObject {
    pub bytes: Vec<u8>,
    pub metadata: ObjectMetadata,
}

/// What callers are told of a stored object.
#[derive(Debug, Clone)]
pub struct ObjectRef {
    pub key: String,
    pub media_type: String,
    pub size_bytes: u64,
    pub sha256: String,
    pub filename: String,
    pub content_encoding: String,
    pub metadata: Vec<(String, String)>,
}

/// A character that a file name keeps (lower-cased).
pub open spec fn is_filename_char(c: char) -> bool {
    is_ascii_alphanumeric(c) || c == '.' || c == '_' || c == '-'
}

/// The file name of `path`: its last non-empty `/`-part with every character
/// but ASCII letters, digits, `.`, `_` and `-` replaced by `_` and letters
/// lower-cased, or `file`.
pub open spec fn filename_text(path: Seq<char>) -> Seq<char> {
    let name = last_part(trim_end_text(path, '/'), '/');
    if name.len() == 0 {
        "file"@
    } else {
        name.map_values(|c: char| if is_filename_char(c) { ascii_lower(c) } else { '_' })
    }
}

/// The file name an object at `path` is given.
pub fn filename_for_path(path: &str) -> (r: String)
    ensures
        r@ == filename_text(path@),
{
    let trimmed = trim_end_chars(&chars_of(path), '/');
    let name = last_part_chars(&trimmed, '/');
    if name.len() == 0 {
        return owned("file");
    }
    let mut r = String::new();
    let mut i: usize = 0;
    while i < name.len()
        invariant
            i <= name.len(),
            r@ == name@.take(i as int).map_values(
                |c: char| if is_filename_char(c) { ascii_lower(c) } else { '_' },
            ),
        decreases name.len() - i,
    {
        let c = name[i];
        if ascii_alphanumeric(c) || c == '.' || c == '_' || c == '-' {
            push_char(&mut r, to_ascii_lower(c));
        } else {
            push_char(&mut r, '_');
        }
        proof {
            assert(name@.take(i + 1) =~= name@.take(i as int).push(c));
            assert(r@ =~= name@.take(i + 1).map_values(
                |c: char| if is_filename_char(c) { ascii_lower(c) } else { '_' },
            ));
        }
        i += 1;
    }
    assert(name@.take(name.len() as int) =~= name@);
    r
}

/// The metadata pairs of a file object.
pub open spec fn file_metadata_map(namespace: Seq<char>, file_uid: Seq<char>, path: Seq<char>) -> Map<
    Seq<char>,
    Seq<char>,
> {
    map![
        "kind"@ => "file"@,
        "namespace"@ => namespace,
        "file_uid"@ => file_uid,
        "path"@ => path,
    ]
}

fn file_metadata(namespace: &str, file_uid: &str, path: &str) -> (r: Vec<(String, String)>)
    ensures
        meta_map(r@) == file_metadata_map(namespace@, file_uid@, path@),
        fields_distinct(r@),
{
    let mut r: Vec<(String, String)> = Vec::new();
    metadata_insert(&mut r, METADATA_KIND, METADATA_KIND_FILE);
    metadata_insert(&mut r, "namespace", namespace);
    metadata_insert(&mut r, "file_uid", file_uid);
    metadata_insert(&mut r, "path", path);
    proof {
        assert(meta_map(Seq::<(String, String)>::empty()) =~= Map::<Seq<char>, Seq<char>>::empty());
        assert(meta_map(r@) =~= file_metadata_map(namespace@, file_uid@, path@));
    }
    r
}

/// What callers are told of the object stored under `key` with `metadata`.
pub fn object_ref_from_metadata(key: &str, metadata: &ObjectMetadata) -> (r: ObjectRef)
    ensures
        r.key@ == key@,
        r.media_type == metadata.media_type,
        r.size_bytes == metadata.size_bytes,
        r.sha256 == metadata.sha256,
        r.filename == metadata.filename,
        r.content_encoding == metadata.content_encoding,
        r.metadata@ == metadata.metadata@,
{
    ObjectRef {
        key: owned(key),
        media_type: metadata.media_type.clone(),
        size_bytes: metadata.size_bytes,
        sha256: metadata.sha256.clone(),
        filename: metadata.filename.clone(),
        content_encoding: metadata.content_encoding.clone(),
        metadata: clone_metadata(&metadata.metadata),
    }
}

/// What callers are told of `object`, stored under `key`.
pub fn object_ref_from_stored_object(key: &str, object: &StoredObject) -> (r: ObjectRef)
    ensures
        r.key@ == key@,
        r.media_type == object.metadata.media_type,
        r.size_bytes == object.metadata.size_bytes,
        r.sha256 == object.metadata.sha256,
        r.filename == object.metadata.filename,
        r.content_encoding == object.metadata.content_encoding,
        r.metadata@ == object.metadata.metadata@,
{
    object_ref_from_metadata(key, &object.metadata)
}

impl<S> CasStore<S> {
    /// The metadata a file upload to `path` is stored with.
    pub fn file_upload_metadata(
        namespace: &str,
        file_uid: &str,
        path: &str,
        media_type: &str,
        sha: &str,
        size_bytes: u64,
    ) -> (r: ObjectMetadata)
        ensures
            r.media_type@ == media_type@,
            r.size_bytes == size_bytes,
            r.sha256@ == sha@,
            r.filename@ == filename_text(path@),
            r.content_encoding@ == Seq::<char>::empty(),
            meta_map(r.metadata@) == file_metadata_map(namespace@, file_uid@, path@),
            fields_distinct(r.metadata@),
    {
        ObjectMetadata {
            media_type: owned(media_type),
            size_bytes,
            sha256: owned(sha),
            filename: filename_for_path(path),
            content_encoding: String::new(),
            metadata: file_metadata(namespace, file_uid, path),
        }
    }
}

/// `Ok` exactly when the metadata names the agent of `scope`.
pub fn ensure_session_metadata_scope(scope: &SessionCasScope, key: &str, metadata: &ObjectMetadata) -> (r:
    Result<(), CasError>)
    ensures
        r is Ok <==> meta_lookup(meta_pairs(metadata.metadata@), "agent"@) == Some(scope.agent@),
        r matches Err(e) ==> e@ == CasErrorView::AgentMismatch(key@),
{
    match metadata_get(&metadata.metadata, METADATA_AGENT) {
        Some(actual) => {
            if str_eq(actual.as_str(), scope.agent.as_str()) {
                Ok(())
            } else {
                Err(CasError::AgentMismatch { key: owned(key) })
            }
        },
        None => Err(CasError::AgentMismatch { key: owned(key) }),
    }
}

/// The scope of a session object: the namespace and session of its key and
/// the agent its metadata names, which must not be blank.
pub fn session_scope_from_key_and_metadata(
    key_scope: &SessionCasScope,
    key: &str,
    metadata: &ObjectMetadata,
) -> (r: Result<SessionCasScope, CasError>)
    ensures
        match meta_lookup(meta_pairs(metadata.metadata@), "agent"@) {
            Some(agent) => if is_blank(agent) {
                r matches Err(e) && e@ == CasErrorView::MissingAgent(key@)
            } else {
                r matches Ok(s) && s.ns@ == key_scope.ns@ && s.agent@ == agent && s.session_id@
                    == key_scope.session_id@
            },
            None => r matches Err(e) && e@ == CasErrorView::MissingAgent(key@),
        },
{
    match metadata_get(&metadata.metadata, METADATA_AGENT) {
        Some(agent) => {
            if blank(agent.as_str()) {
                Err(CasError::MissingAgent { key: owned(key) })
            } else {
                Ok(
                    SessionCasScope::new(
                        key_scope.ns.as_str(),
                        agent.as_str(),
                        key_scope.session_id.as_str(),
                    ),
                )
            }
        },
        None => Err(CasError::MissingAgent { key: owned(key) }),
    }
}

/// The metadata every session object starts with: its agent.
pub fn session_object_metadata(scope: &SessionCasScope) -> (r: Vec<(String, String)>)
    ensures
        meta_map(r@) == map!["agent"@ => scope.agent@],
        fields_distinct(r@),
{
    let mut r: Vec<(String, String)> = Vec::new();
    metadata_insert(&mut r, METADATA_AGENT, scope.agent.as_str());
    proof {
        assert(meta_map(Seq::<(String, String)>::empty()) =~= Map::<Seq<char>, Seq<char>>::empty());
        assert(meta_map(r@) =~= map!["agent"@ => scope.agent@]);
    }
    r
}

/// The metadata of a tool result with logical bytes `logical_bytes`.
pub open spec fn tool_result_metadata_map(
    agent: Seq<char>,
    tool_call_id: Seq<char>,
    tool_name: Seq<char>,
    logical_bytes: Seq<u8>,
) -> Map<Seq<char>, Seq<char>> {
    map![
        "agent"@ => agent,
        "kind"@ => "tool_result"@,
        "tool_call_id"@ => tool_call_id,
        "tool_name"@ => tool_name,
        "uncompressed_size_bytes"@ => decimal_text(logical_bytes.len()),
        "uncompressed_sha256"@ => hex_lower(sha256_digest(logical_bytes)),
    ]
}

/// The metadata a tool result is stored with.
pub fn tool_result_metadata(
    scope: &SessionCasScope,
    tool_call_id: &str,
    tool_name: &str,
    logical_bytes: &[u8],
) -> (r: Vec<(String, String)>)
    ensures
        meta_map(r@) == tool_result_metadata_map(scope.agent@, tool_call_id@, tool_name@, logical_bytes@),
        fields_distinct(r@),
{
    let mut r = session_object_metadata(scope);
    metadata_insert(&mut r, METADATA_KIND, METADATA_KIND_TOOL_RESULT);
    metadata_insert(&mut r, METADATA_TOOL_CALL_ID, tool_call_id);
    metadata_insert(&mut r, METADATA_TOOL_NAME, tool_name);
    let size = decimal_string(logical_bytes.len() as u64);
    metadata_insert(&mut r, METADATA_UNCOMPRESSED_SIZE_BYTES, size.as_str());
    let sha = sha256_hex(logical_bytes);
    metadata_insert(&mut r, METADATA_UNCOMPRESSED_SHA256, sha.as_str());
    proof {
        assert(meta_map(r@) =~= tool_result_metadata_map(
            scope.agent@,
            tool_call_id@,
            tool_name@,
            logical_bytes@,
        ));
    }
    r
}

/// The object key of the upload `sha` of file `file_uid`.
pub open spec fn file_key_text(namespace: Seq<char>, file_uid: Seq<char>, sha: Seq<char>) -> Seq<char> {
    "cas/"@ + url_encode(namespace) + "/files/"@ + segment_text(file_uid) + "/"@ + segment_text(sha)
}

/// The object key of the upload `sha` of artifact `artifact_uid`.
pub open spec fn artifact_key_text(namespace: Seq<char>, artifact_uid: Seq<char>, sha: Seq<char>) -> Seq<
    char,
> {
    "cas/"@ + url_encode(namespace) + "/artifacts/"@ + segment_text(artifact_uid) + "/"@
        + segment_text(sha)
}

/// The object key of the latest content of the file at `path`.
pub open spec fn latest_file_key_text(namespace: Seq<char>, path: Seq<char>) -> Seq<char> {
    "latest/"@ + url_encode(namespace) + "/files/"@ + trim_start_text(path, '/')
}

/// The object key of the upload `sha` of file `file_uid`.
pub fn file_object_key(namespace: &str, file_uid: &str, sha: &str) -> (r: String)
    ensures
        r@ == file_key_text(namespace@, file_uid@, sha@),
{
    let mut r = String::new();
    push_str(&mut r, "cas/");
    push_str(&mut r, encoded_object_key_segment(namespace).as_str());
    push_str(&mut r, "/files/");
    push_str(&mut r, object_key_segment(file_uid).as_str());
    push_str(&mut r, "/");
    push_str(&mut r, object_key_segment(sha).as_str());
    r
}

/// The object key of the upload `sha` of artifact `artifact_uid`.
pub fn artifact_object_key(namespace: &str, artifact_uid: &str, sha: &str) -> (r: String)
    ensures
        r@ == artifact_key_text(namespace@, artifact_uid@, sha@),
{
    let mut r = String::new();
    push_str(&mut r, "cas/");
    push_str(&mut r, encoded_object_key_segment(namespace).as_str());
    push_str(&mut r, "/artifacts/");
    push_str(&mut r, object_key_segment(artifact_uid).as_str());
    push_str(&mut r, "/");
    push_str(&mut r, object_key_segment(sha).as_str());
    r
}

/// The object key of the latest content of the file at `path`.
pub fn latest_file_object_key(namespace: &str, path: &str) -> (r: String)
    ensures
        r@ == latest_file_key_text(namespace@, path@),
{
    let mut r = String::new();
    push_str(&mut r, "latest/");
    push_str(&mut r, encoded_object_key_segment(namespace).as_str());
    push_str(&mut r, "/files/");
    push_str(&mut r, string_of(&trim_start_chars(&chars_of(path), '/')).as_str());
    r
}

/// `s` with ASCII letters lower-cased (`str::to_ascii_lowercase`).
pub open spec fn ascii_lower_text(s: Seq<char>) -> Seq<char> {
    s.map_values(|c: char| ascii_lower(c))
}

fn ascii_lowercase(s: &str) -> (r: String)
    ensures
        r@ == ascii_lower_text(s@),
{
    let v = chars_of(s);
    let mut r = String::new();
    let mut i: usize = 0;
    while i < v.len()
        invariant
            i <= v.len(),
            v@ == s@,
            r@ == ascii_lower_text(v@.take(i as int)),
        decreases v.len() - i,
    {
        push_char(&mut r, to_ascii_lower(v[i]));
        assert(ascii_lower_text(v@.take(i + 1)) =~= ascii_lower_text(v@.take(i as int)).push(
            ascii_lower(v@[i as int]),
        ));
        i += 1;
    }
    assert(v@.take(v.len() as int) =~= v@);
    r
}

/// The content encoding of an object, lower-cased: its `content_encoding`
/// when that is not blank, else the legacy metadata field, if any.
pub open spec fn content_encoding_of(metadata: ObjectMetadata) -> Option<Seq<char>> {
    if is_blank(metadata.content_encoding@) {
        match meta_lookup(meta_pairs(metadata.metadata@), "content_encoding"@) {
            Some(e) => Some(ascii_lower_text(e)),
            None => None,
        }
    } else {
        Some(ascii_lower_text(metadata.content_encoding@))
    }
}

/// What a bounded read of decoded bytes of object `key` gives: a failed read
/// is invalid `encoding` bytes, more than the logical limit is too large.
pub open spec fn limited_result(read: Option<Seq<u8>>, key: Seq<char>, encoding: Seq<char>) -> Result<
    Seq<u8>,
    CasErrorView,
> {
    match read {
        None => Err(CasErrorView::InvalidEncodedBytes(key, encoding)),
        Some(b) => if b.len() > MAX_LOGICAL_OBJECT_BYTES {
            Err(CasErrorView::ExpandsTooLarge(key))
        } else {
            Ok(b)
        },
    }
}

/// Checks the outcome of reading at most one byte more than the logical
/// limit from a decoder of object `key`.
pub fn limited_decoded(read: Result<Vec<u8>, String>, key: &str, encoding: &str) -> (r: Result<
    Vec<u8>,
    CasError,
>)
    ensures
        match (r, limited_result(
            match read {
                Ok(v) => Some(v@),
                Err(_) => None,
            },
            key@,
            encoding@,
        )) {
            (Ok(v), Ok(w)) => v@ == w,
            (Err(e), Err(f)) => e@ == f,
            _ => false,
        },
        read matches Err(d) ==> r matches Err(CasError::InvalidEncodedBytes { detail, .. }) && detail == d,
{
    match read {
        Ok(out) => {
            if out.len() as u64 > MAX_LOGICAL_OBJECT_BYTES {
                Err(CasError::ExpandsTooLarge { key: owned(key) })
            } else {
                Ok(out)
            }
        },
        Err(detail) => Err(
            CasError::InvalidEncodedBytes { key: owned(key), encoding: owned(encoding), detail },
        ),
    }
}

/// The logical bytes of a stored object with `metadata` and stored `bytes`.
pub open spec fn decoded_bytes(metadata: ObjectMetadata, bytes: Seq<u8>, key: Seq<char>) -> Result<
    Seq<u8>,
    CasErrorView,
> {
    match content_encoding_of(metadata) {
        Some(e) => if e == "zstd"@ {
            limited_result(unzstd_read(bytes, (MAX_LOGICAL_OBJECT_BYTES + 1) as u64), key, "zstd"@)
        } else if e == "gzip"@ {
            limited_result(gunzip_read(bytes, (MAX_LOGICAL_OBJECT_BYTES + 1) as u64), key, "gzip"@)
        } else {
            Err(CasErrorView::UnsupportedEncoding(key, e))
        },
        None => if bytes.len() > MAX_LOGICAL_OBJECT_BYTES {
            Err(CasErrorView::ObjectTooLarge(key))
        } else {
            Ok(bytes)
        },
    }
}

/// The logical bytes of `object`, stored under `key`: decoded when it has a
/// gzip or zstd content encoding, else its bytes as they are.
pub fn decode_stored_object_bytes(object: &StoredObject, key: &str) -> (r: Result<Vec<u8>, CasError>)
    ensures
        match (r, decoded_bytes(object.metadata, object.bytes@, key@)) {
            (Ok(v), Ok(w)) => v@ == w,
            (Err(e), Err(f)) => e@ == f,
            _ => false,
        },
{
    let encoding = if blank(object.metadata.content_encoding.as_str()) {
        match metadata_get(&object.metadata.metadata, METADATA_CONTENT_ENCODING) {
            Some(value) => Some(ascii_lowercase(value.as_str())),
            None => None,
        }
    } else {
        Some(ascii_lowercase(object.metadata.content_encoding.as_str()))
    };
    let limit: u64 = MAX_LOGICAL_OBJECT_BYTES + 1;
    match encoding {
        Some(e) => {
            if str_eq(e.as_str(), CONTENT_ENCODING_ZSTD) {
                limited_decoded(unzstd(object.bytes.as_slice(), limit), key, "zstd")
            } else if str_eq(e.as_str(), CONTENT_ENCODING_GZIP) {
                limited_decoded(gunzip(object.bytes.as_slice(), limit), key, "gzip")
            } else {
                Err(CasError::UnsupportedEncoding { key: owned(key), encoding: e })
            }
        },
        None => {
            if object.bytes.len() as u64 > MAX_LOGICAL_OBJECT_BYTES {
                Err(CasError::ObjectTooLarge { key: owned(key) })
            } else {
                Ok(vstd::slice::slice_to_vec(object.bytes.as_slice()))
            }
        },
    }
}

/// `object` with its logical bytes: no content encoding, no legacy encoding
/// field, the logical size, and the recorded logical SHA-256 or that of the
/// logical bytes.
pub fn decode_stored_object(object: StoredObject, key: &str) -> (r: Result<StoredObject, CasError>)
    ensures
        match (r, decoded_bytes(object.metadata, object.bytes@, key@)) {
            (Ok(o), Ok(w)) => {
                &&& o.bytes@ == w
                &&& o.metadata.media_type == object.metadata.media_type
                &&& o.metadata.filename == object.metadata.filename
                &&& o.metadata.content_encoding@ == Seq::<char>::empty()
                &&& o.metadata.size_bytes == w.len()
                &&& meta_map(o.metadata.metadata@) == meta_map(object.metadata.metadata@).remove(
                    "content_encoding"@,
                )
                &&& o.metadata.sha256@ == match meta_lookup(
                    meta_pairs(object.metadata.metadata@),
                    "uncompressed_sha256"@,
                ) {
                    Some(s) => s,
                    None => hex_lower(sha256_digest(w)),
                }
            },
            (Err(e), Err(f)) => e@ == f,
            _ => false,
        },
{
    let bytes = match decode_stored_object_bytes(&object, key) {
        Ok(bytes) => bytes,
        Err(e) => {
            return Err(e);
        },
    };
    let ghost old_pairs = object.metadata.metadata@;
    let mut object = object;
    let recorded = match metadata_get(&object.metadata.metadata, METADATA_UNCOMPRESSED_SHA256) {
        Some(s) => Some(s.clone()),
        None => None,
    };
    metadata_remove(&mut object.metadata.metadata, METADATA_CONTENT_ENCODING);
    object.metadata.content_encoding = String::new();
    object.metadata.size_bytes = bytes.len() as u64;
    object.metadata.sha256 = match recorded {
        Some(s) => s,
        None => sha256_hex(bytes.as_slice()),
    };
    object.bytes = bytes;
    proof {
        assert(meta_map(object.metadata.metadata@) =~= meta_map(old_pairs).remove("content_encoding"@));
    }
    Ok(object)
}

/// Whether `compressed_len` bytes save at least the minimum share of
/// `raw_len`.
pub open spec fn saves_meaningfully(raw_len: nat, compressed_len: nat) -> bool {
    compressed_len * 100 < raw_len * (100 - MIN_COMPRESSION_SAVINGS_PERCENT)
}

/// Whether compressing `raw_len` bytes to `compressed_len` bytes saves at
/// least the minimum share.
pub fn compression_saves_meaningfully(raw_len: usize, compressed_len: usize) -> (r: bool)
    ensures
        r == saves_meaningfully(raw_len as nat, compressed_len as nat),
{
    let c = compressed_len as u128;
    let raw = raw_len as u128;
    let keep: u128 = (100 - MIN_COMPRESSION_SAVINGS_PERCENT) as u128;
    assert(raw * keep <= raw * 100) by (nonlinear_arith)
        requires
            keep <= 100,
    ;
    c * 100 < raw * keep
}

/// The bytes stored for logical bytes `raw`, given their gzip stream, and
/// the content encoding to record.
pub open spec fn stored_bytes_for(raw: Seq<u8>, gzipped: Seq<u8>) -> (Seq<u8>, Option<Seq<char>>) {
    if saves_meaningfully(raw.len(), gzipped.len()) {
        (gzipped, Some("gzip"@))
    } else {
        (raw, None)
    }
}

/// Chooses the stored representation of `raw` given the outcome of gzipping
/// it: the gzip stream when it saves meaningfully, else `raw` itself.
pub fn stored_representation(raw: &[u8], gzipped: Result<Vec<u8>, String>) -> (r: Result<
    (Vec<u8>, Option<&'static str>),
    CasError,
>)
    ensures
        match gzipped {
            Ok(g) => r matches Ok((b, e)) && (b@, match e {
                Some(x) => Some(x@),
                None => None,
            }) == stored_bytes_for(raw@, g@),
            Err(d) => r matches Err(CasError::Compression { detail }) && detail == d,
        },
{
    match gzipped {
        Ok(g) => {
            if compression_saves_meaningfully(raw.len(), g.len()) {
                Ok((g, Some(CONTENT_ENCODING_GZIP)))
            } else {
                Ok((vstd::slice::slice_to_vec(raw), None))
            }
        },
        Err(detail) => Err(CasError::Compression { detail }),
    }
}

/// The stored representation of logical bytes `raw`.
pub fn compressed_object_bytes(raw: &[u8]) -> (r: Result<(Vec<u8>, Option<&'static str>), CasError>)
    ensures
        r matches Ok((b, e)) ==> (b@, match e {
            Some(x) => Some(x@),
            None => None,
        }) == stored_bytes_for(raw@, gzip_stream(raw@)),
        r is Ok <==> gzip_result(raw@) is Some,
        r matches Err(e) ==> e@ == CasErrorView::Compression,
        r matches Ok((b, Some(_))) ==> forall|limit: u64|
            limit >= raw@.len() ==> #[trigger] gunzip_read(b@, limit) == Some(raw@),
{
    stored_representation(raw, gzip(raw))
}

/// The bytes of the truncation marker.
pub open spec fn truncation_marker_bytes() -> Seq<u8> {
    encode_utf8(TOOL_RESULT_TRUNCATION_MARKER@)
}

/// The greatest character boundary of `bytes` at or below `p`, or 0.
pub open spec fn boundary_at_or_below(bytes: Seq<u8>, p: nat) -> nat
    decreases p,
{
    if p == 0 || is_char_boundary(bytes, p as int) {
        p
    } else {
        boundary_at_or_below(bytes, (p - 1) as nat)
    }
}

/// How many bytes of an over-long tool result are kept before the marker:
/// the limit less the marker, moved down to a character boundary when the
/// result is UTF-8 text.
pub open spec fn truncated_prefix_len(raw: Seq<u8>) -> nat {
    let m = truncation_marker_bytes().len();
    let start: nat = if MAX_TOOL_RESULT_LOGICAL_BYTES >= m {
        (MAX_TOOL_RESULT_LOGICAL_BYTES - m) as nat
    } else {
        0
    };
    if valid_utf8(raw) {
        boundary_at_or_below(raw, start)
    } else {
        start
    }
}

/// The logical bytes kept of a tool result: all of it up to the limit, else
/// a prefix and the truncation marker.
pub open spec fn tool_result_logical(raw: Seq<u8>) -> Seq<u8> {
    if raw.len() <= MAX_TOOL_RESULT_LOGICAL_BYTES {
        raw
    } else {
        raw.take(truncated_prefix_len(raw) as int) + truncation_marker_bytes()
    }
}

/// The logical bytes kept of the tool result `raw`.
pub fn tool_result_logical_bytes(raw: &[u8]) -> (r: Vec<u8>)
    ensures
        r@ == tool_result_logical(raw@),
{
    if raw.len() <= MAX_TOOL_RESULT_LOGICAL_BYTES {
        return vstd::slice::slice_to_vec(raw);
    }
    let marker = TOOL_RESULT_TRUNCATION_MARKER.as_bytes();
    let start = MAX_TOOL_RESULT_LOGICAL_BYTES.saturating_sub(marker.len());
    let mut p = start;
    match str_from_utf8(raw) {
        Ok(text) => {
            while p > 0 && !text.is_char_boundary(p)
                invariant
                    p <= start,
                    text.spec_bytes() == raw@,
                    boundary_at_or_below(raw@, p as nat) == boundary_at_or_below(raw@, start as nat),
                decreases p,
            {
                p -= 1;
            }
        },
        Err(_) => {},
    }
    assert(p == truncated_prefix_len(raw@));
    let mut out: Vec<u8> = Vec::new();
    let mut i: usize = 0;
    while i < p
        invariant
            i <= p,
            p <= start < raw.len(),
            out@ == raw@.take(i as int),
        decreases p - i,
    {
        out.push(raw[i]);
        assert(out@ =~= raw@.take(i + 1));
        i += 1;
    }
    let mut tail = vstd::slice::slice_to_vec(marker);
    out.append(&mut tail);
    out
}

/// A write to the object store: key, stored bytes and metadata.
#[derive(Debug, Clone)]
pub struct ObjectPut {
    pub key: String,
    pub bytes: Vec<u8>,
    pub metadata: ObjectMetadata,
}

/// The write that stores the content `bytes` of the file `file_uid` at
/// `path`, keyed by the content's SHA-256.
pub fn prepare_file(namespace: &str, file_uid: &str, path: &str, bytes: &[u8], media_type: &str) -> (r:
    ObjectPut)
    ensures
        r.key@ == file_key_text(namespace@, file_uid@, hex_lower(sha256_digest(bytes@))),
        r.bytes@ == bytes@,
        r.metadata.media_type@ == media_type@,
        r.metadata.size_bytes == bytes@.len(),
        r.metadata.sha256@ == hex_lower(sha256_digest(bytes@)),
        r.metadata.filename@ == filename_text(path@),
        r.metadata.content_encoding@ == Seq::<char>::empty(),
        meta_map(r.metadata.metadata@) == file_metadata_map(namespace@, file_uid@, path@),
{
    let sha = sha256_hex(bytes);
    let key = file_object_key(namespace, file_uid, sha.as_str());
    let metadata = CasStore::<()>::file_upload_metadata(
        namespace,
        file_uid,
        path,
        media_type,
        sha.as_str(),
        bytes.len() as u64,
    );
    ObjectPut { key, bytes: vstd::slice::slice_to_vec(bytes), metadata }
}

/// The metadata of the latest content of a file.
pub open spec fn latest_file_metadata_map(namespace: Seq<char>, path: Seq<char>) -> Map<
    Seq<char>,
    Seq<char>,
> {
    map!["kind"@ => "file"@, "namespace"@ => namespace, "path"@ => path, "latest"@ => "true"@]
}

/// The write that stores `bytes` as the latest content of the file at `path`.
pub fn prepare_latest_file(namespace: &str, path: &str, bytes: &[u8], media_type: &str) -> (r: ObjectPut)
    ensures
        r.key@ == latest_file_key_text(namespace@, path@),
        r.bytes@ == bytes@,
        r.metadata.media_type@ == media_type@,
        r.metadata.size_bytes == bytes@.len(),
        r.metadata.sha256@ == hex_lower(sha256_digest(bytes@)),
        r.metadata.filename@ == filename_text(path@),
        r.metadata.content_encoding@ == Seq::<char>::empty(),
        meta_map(r.metadata.metadata@) == latest_file_metadata_map(namespace@, path@),
{
    let key = latest_file_object_key(namespace, path);
    let mut pairs: Vec<(String, String)> = Vec::new();
    metadata_insert(&mut pairs, METADATA_KIND, METADATA_KIND_FILE);
    metadata_insert(&mut pairs, "namespace", namespace);
    metadata_insert(&mut pairs, "path", path);
    metadata_insert(&mut pairs, "latest", "true");
    proof {
        assert(meta_map(Seq::<(String, String)>::empty()) =~= Map::<Seq<char>, Seq<char>>::empty());
        assert(meta_map(pairs@) =~= latest_file_metadata_map(namespace@, path@));
    }
    let metadata = ObjectMetadata {
        media_type: owned(media_type),
        size_bytes: bytes.len() as u64,
        sha256: sha256_hex(bytes),
        filename: filename_for_path(path),
        content_encoding: String::new(),
        metadata: pairs,
    };
    ObjectPut { key, bytes: vstd::slice::slice_to_vec(bytes), metadata }
}

/// The metadata of an artifact: the caller's fields with the artifact's own
/// set over them.
pub open spec fn artifact_metadata_map(
    extra: Map<Seq<char>, Seq<char>>,
    namespace: Seq<char>,
    agent: Seq<char>,
    session_id: Seq<char>,
    artifact_uid: Seq<char>,
) -> Map<Seq<char>, Seq<char>> {
    extra.insert("kind"@, "artifact"@).insert("namespace"@, namespace).insert(
        "artifact_id"@,
        artifact_uid,
    ).insert("agent"@, agent).insert("session_id"@, session_id)
}

/// The write that stores `bytes` as the artifact `artifact_uid` of a
/// session, keyed by the content's SHA-256.
pub fn prepare_artifact(
    namespace: &str,
    agent: &str,
    session_id: &str,
    artifact_uid: &str,
    path: &str,
    bytes: &[u8],
    media_type: &str,
    metadata: Vec<(String, String)>,
) -> (r: ObjectPut)
    ensures
        r.key@ == artifact_key_text(namespace@, artifact_uid@, hex_lower(sha256_digest(bytes@))),
        r.bytes@ == bytes@,
        r.metadata.media_type@ == media_type@,
        r.metadata.size_bytes == bytes@.len(),
        r.metadata.sha256@ == hex_lower(sha256_digest(bytes@)),
        r.metadata.filename@ == filename_text(path@),
        r.metadata.content_encoding@ == Seq::<char>::empty(),
        meta_map(r.metadata.metadata@) == artifact_metadata_map(
            meta_map(metadata@),
            namespace@,
            agent@,
            session_id@,
            artifact_uid@,
        ),
        fields_distinct(metadata@) ==> fields_distinct(r.metadata.metadata@),
{
    let sha = sha256_hex(bytes);
    let key = artifact_object_key(namespace, artifact_uid, sha.as_str());
    let mut pairs = metadata;
    metadata_insert(&mut pairs, METADATA_KIND, METADATA_KIND_ARTIFACT);
    metadata_insert(&mut pairs, "namespace", namespace);
    metadata_insert(&mut pairs, "artifact_id", artifact_uid);
    metadata_insert(&mut pairs, METADATA_AGENT, agent);
    metadata_insert(&mut pairs, "session_id", session_id);
    let object_metadata = ObjectMetadata {
        media_type: owned(media_type),
        size_bytes: bytes.len() as u64,
        sha256: sha,
        filename: filename_for_path(path),
        content_encoding: String::new(),
        metadata: pairs,
    };
    ObjectPut { key, bytes: vstd::slice::slice_to_vec(bytes), metadata: object_metadata }
}

/// `put` stores a tool result of part `part_id` of message `message_id`
/// under its session object key: the kept logical bytes, gzipped when that
/// saves meaningfully, with the tool result's metadata.
pub open spec fn tool_result_put_is(
    put: ObjectPut,
    ns: Seq<char>,
    agent: Seq<char>,
    session_id: Seq<char>,
    message_id: Seq<char>,
    part_id: Seq<char>,
    tool_call_id: Seq<char>,
    tool_name: Seq<char>,
    raw: Seq<u8>,
) -> bool {
    let logical = tool_result_logical(raw);
    let stored = stored_bytes_for(logical, gzip_stream(logical));
    &&& gzip_result(logical) is Some
    &&& put.key@ == session_key_text(ns, session_id, message_id, part_id)
    &&& put.bytes@ == stored.0
    &&& put.metadata.media_type@ == TOOL_RESULT_MEDIA_TYPE@
    &&& put.metadata.size_bytes == stored.0.len()
    &&& put.metadata.sha256@ == hex_lower(sha256_digest(stored.0))
    &&& put.metadata.filename@ == segment_text(tool_call_id) + ".txt"@
    &&& put.metadata.content_encoding@ == match stored.1 {
        Some(e) => e,
        None => Seq::<char>::empty(),
    }
    &&& meta_map(put.metadata.metadata@) == tool_result_metadata_map(agent, tool_call_id, tool_name, logical)
    &&& fields_distinct(put.metadata.metadata@)
}

/// What storing the tool result `raw` may give: refused when larger than
/// the logical object limit, else the write of [`tool_result_put_is`] when
/// gzipping the kept bytes succeeds, or a compression error when it fails.
pub open spec fn tool_result_outcome(
    r: Result<ObjectPut, CasError>,
    ns: Seq<char>,
    agent: Seq<char>,
    session_id: Seq<char>,
    message_id: Seq<char>,
    part_id: Seq<char>,
    tool_call_id: Seq<char>,
    tool_name: Seq<char>,
    raw: Seq<u8>,
) -> bool {
    if raw.len() > MAX_LOGICAL_OBJECT_BYTES {
        r matches Err(e) && e@ == CasErrorView::ToolResultTooLarge
    } else {
        match r {
            Ok(put) => tool_result_put_is(
                put,
                ns,
                agent,
                session_id,
                message_id,
                part_id,
                tool_call_id,
                tool_name,
                raw,
            ),
            Err(e) => e@ == CasErrorView::Compression && gzip_result(tool_result_logical(raw)) is None,
        }
    }
}

/// The write that stores a tool result (see [`tool_result_outcome`]).
pub fn prepare_tool_result(
    ns: &str,
    agent: &str,
    session_id: &str,
    message_id: &str,
    part_id: &str,
    tool_call_id: &str,
    tool_name: &str,
    uncompressed_bytes: &[u8],
) -> (r: Result<ObjectPut, CasError>)
    ensures
        tool_result_outcome(
            r,
            ns@,
            agent@,
            session_id@,
            message_id@,
            part_id@,
            tool_call_id@,
            tool_name@,
            uncompressed_bytes@,
        ),
        r matches Ok(put) ==> forall|key: Seq<char>|
            #[trigger] decoded_bytes(put.metadata, put.bytes@, key) == Ok::<Seq<u8>, CasErrorView>(
                tool_result_logical(uncompressed_bytes@),
            ),
        r matches Ok(put) ==> forall|reader: Seq<char>|
            (#[trigger] meta_lookup(meta_pairs(put.metadata.metadata@), "agent"@) == Some(reader))
                <==> reader == agent@,
{
    if uncompressed_bytes.len() as u64 > MAX_LOGICAL_OBJECT_BYTES {
        return Err(CasError::ToolResultTooLarge);
    }
    let scope = SessionCasScope::new(ns, agent, session_id);
    let identity = SessionObjectIdentity::new(message_id, part_id);
    let logical = tool_result_logical_bytes(uncompressed_bytes);
    let (stored, encoding) = match compressed_object_bytes(logical.as_slice()) {
        Ok(pair) => pair,
        Err(e) => {
            return Err(e);
        },
    };
    let metadata = tool_result_metadata(&scope, tool_call_id, tool_name, logical.as_slice());
    let mut filename = object_key_segment(tool_call_id);
    push_str(&mut filename, ".txt");
    let content_encoding = match encoding {
        Some(e) => owned(e),
        None => String::new(),
    };
    let object_metadata = ObjectMetadata {
        media_type: owned(TOOL_RESULT_MEDIA_TYPE),
        size_bytes: stored.len() as u64,
        sha256: sha256_hex(stored.as_slice()),
        filename,
        content_encoding,
        metadata,
    };
    let put = ObjectPut {
        key: session_object_key(&scope, &identity),
        bytes: stored,
        metadata: object_metadata,
    };
    proof {
        assert forall|key: Seq<char>|
            #[trigger] decoded_bytes(put.metadata, put.bytes@, key) == Ok::<Seq<u8>, CasErrorView>(
                logical@,
            ) by {
            lemma_tool_result_round_trip(
                put,
                ns@,
                agent@,
                session_id@,
                message_id@,
                part_id@,
                tool_call_id@,
                tool_name@,
                uncompressed_bytes@,
                key,
                agent@,
            );
        }
        assert forall|reader: Seq<char>|
            (#[trigger] meta_lookup(meta_pairs(put.metadata.metadata@), "agent"@) == Some(reader))
                <==> reader == agent@ by {
            lemma_tool_result_round_trip(
                put,
                ns@,
                agent@,
                session_id@,
                message_id@,
                part_id@,
                tool_call_id@,
                tool_name@,
                uncompressed_bytes@,
                seq![],
                reader,
            );
        }
    }
    Ok(put)
}

/// The tool result write, only when the raw result has at least
/// `threshold_bytes` bytes; `Ok(None)` below that.
pub fn prepare_tool_result_if_raw_at_least(
    ns: &str,
    agent: &str,
    session_id: &str,
    message_id: &str,
    part_id: &str,
    tool_call_id: &str,
    tool_name: &str,
    uncompressed_bytes: &[u8],
    threshold_bytes: usize,
) -> (r: Result<Option<ObjectPut>, CasError>)
    ensures
        uncompressed_bytes@.len() < threshold_bytes ==> r matches Ok(None),
        uncompressed_bytes@.len() >= threshold_bytes ==> match r {
            Ok(None) => false,
            Ok(Some(put)) => tool_result_outcome(
                Ok(put),
                ns@,
                agent@,
                session_id@,
                message_id@,
                part_id@,
                tool_call_id@,
                tool_name@,
                uncompressed_bytes@,
            ),
            Err(e) => tool_result_outcome(
                Err(e),
                ns@,
                agent@,
                session_id@,
                message_id@,
                part_id@,
                tool_call_id@,
                tool_name@,
                uncompressed_bytes@,
            ),
        },
{
    if uncompressed_bytes.len() < threshold_bytes {
        return Ok(None);
    }
    match prepare_tool_result(
        ns,
        agent,
        session_id,
        message_id,
        part_id,
        tool_call_id,
        tool_name,
        uncompressed_bytes,
    ) {
        Ok(put) => Ok(Some(put)),
        Err(e) => Err(e),
    }
}

/// The kept logical bytes of a tool result are within both limits.
proof fn lemma_tool_result_logical_len(raw: Seq<u8>)
    ensures
        tool_result_logical(raw).len() <= MAX_TOOL_RESULT_LOGICAL_BYTES,
{
    if raw.len() > MAX_TOOL_RESULT_LOGICAL_BYTES {
        let m = truncation_marker_bytes().len();
        let start: nat = if MAX_TOOL_RESULT_LOGICAL_BYTES >= m {
            (MAX_TOOL_RESULT_LOGICAL_BYTES - m) as nat
        } else {
            0
        };
        lemma_boundary_at_or_below_le(raw, start);
        assert(m <= 54) by {
            reveal_strlit("\n\n...[CONTENT TRUNCATED DUE TO TOOL RESULT SIZE LIMIT]");
            vstd::string::is_ascii_spec_bytes(TOOL_RESULT_TRUNCATION_MARKER);
        }
    }
}

proof fn lemma_boundary_at_or_below_le(bytes: Seq<u8>, p: nat)
    ensures
        boundary_at_or_below(bytes, p) <= p,
    decreases p,
{
    if p > 0 && !is_char_boundary(bytes, p as int) {
        lemma_boundary_at_or_below_le(bytes, (p - 1) as nat);
    }
}

/// Decoding what a tool result write stores gives back the logical bytes
/// that were kept of the result, and the stored metadata names the writing
/// agent.
proof fn lemma_tool_result_round_trip(
    put: ObjectPut,
    ns: Seq<char>,
    agent: Seq<char>,
    session_id: Seq<char>,
    message_id: Seq<char>,
    part_id: Seq<char>,
    tool_call_id: Seq<char>,
    tool_name: Seq<char>,
    raw: Seq<u8>,
    key: Seq<char>,
    reader: Seq<char>,
)
    requires
        tool_result_put_is(put, ns, agent, session_id, message_id, part_id, tool_call_id, tool_name, raw),
        saves_meaningfully(
            tool_result_logical(raw).len(),
            gzip_stream(tool_result_logical(raw)).len(),
        ) ==> forall|limit: u64|
            limit >= tool_result_logical(raw).len() ==> #[trigger] gunzip_read(put.bytes@, limit) == Some(
                tool_result_logical(raw),
            ),
    ensures
        decoded_bytes(put.metadata, put.bytes@, key) == Ok::<Seq<u8>, CasErrorView>(
            tool_result_logical(raw),
        ),
        (meta_lookup(meta_pairs(put.metadata.metadata@), "agent"@) == Some(reader)) <==> reader == agent,
{
    let logical = tool_result_logical(raw);
    lemma_tool_result_logical_len(raw);
    reveal_strlit("content_encoding");
    reveal_strlit("agent");
    reveal_strlit("kind");
    reveal_strlit("tool_call_id");
    reveal_strlit("tool_name");
    reveal_strlit("uncompressed_size_bytes");
    reveal_strlit("uncompressed_sha256");
    assert("content_encoding"@.len() == 16);
    assert("agent"@.len() == 5);
    assert("kind"@.len() == 4);
    assert("tool_call_id"@.len() == 12);
    assert("tool_name"@.len() == 9);
    assert("uncompressed_size_bytes"@.len() == 23);
    assert("uncompressed_sha256"@.len() == 19);
    let m = meta_map(put.metadata.metadata@);
    assert(m.dom().contains("agent"@));
    assert(m["agent"@] == agent);
    assert(!m.dom().contains("content_encoding"@));
    reveal_strlit("gzip");
    reveal_strlit("zstd");
    if saves_meaningfully(logical.len(), gzip_stream(logical).len()) {
        assert(gunzip_read(put.bytes@, (MAX_LOGICAL_OBJECT_BYTES + 1) as u64) == Some(logical));
        assert(!is_blank(put.metadata.content_encoding@)) by {
            assert(!crate::text::is_whitespace(put.metadata.content_encoding@[0]));
        }
        assert(ascii_lower_text("gzip"@) =~= "gzip"@);
    }
}

} // verus!
