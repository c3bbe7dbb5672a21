use std::io::Write;

use talon_control::cas::{
    artifact_object_key, compressed_object_bytes, compression_saves_meaningfully,
    decode_stored_object, decode_stored_object_bytes, ensure_session_key_scope,
    ensure_session_metadata_scope, file_object_key, filename_for_path, latest_file_object_key,
    object_key_segment, object_ref_from_metadata, parse_session_object_key, prepare_artifact,
    prepare_file, prepare_latest_file, prepare_tool_result, prepare_tool_result_if_raw_at_least,
    session_object_key_prefix, session_scope_from_key_and_metadata, tool_result_logical_bytes,
    CasError, CasStore, ObjectMetadata, SessionCasScope, SessionObjectIdentity, StoredObject,
    CONTENT_ENCODING_GZIP, CONTENT_ENCODING_ZSTD, MAX_LOGICAL_OBJECT_BYTES,
    MAX_TOOL_RESULT_LOGICAL_BYTES, METADATA_AGENT, METADATA_CONTENT_ENCODING, METADATA_KIND,
    METADATA_KIND_ARTIFACT, METADATA_KIND_FILE, METADATA_UNCOMPRESSED_SIZE_BYTES,
    TOOL_RESULT_TRUNCATION_MARKER,
};
use talon_control::fields::metadata_get;

fn field<'a>(pairs: &'a Vec<(String, String)>, name: &str) -> Option<&'a str> {
    metadata_get(pairs, name).map(|value| value.as_str())
}

#[test]
fn session_object_keys_are_stable_and_session_scoped() {
    let store = CasStore::new(());
    let key = store.session_object_key(
        &SessionCasScope::new("team/alpha", "agent", "session one"),
        &SessionObjectIdentity::new("message#1", "../part id"),
    );
    assert_eq!(
        key,
        "cas/team%2Falpha/sessions/session_one/messages/message_1/.._part_id.txt"
    );
}

#[test]
fn parses_session_scope_from_cas_key() {
    let parsed =
        parse_session_object_key("cas/team%2Falpha/sessions/session-1/messages/message-1/part.txt")
            .unwrap();
    assert_eq!(parsed.scope.ns, "team/alpha");
    assert_eq!(parsed.scope.session_id, "session-1");
    assert_eq!(parsed.identity.message_id, "message-1");
    assert_eq!(parsed.identity.part_id, "part");
}

#[test]
fn rejects_non_canonical_cas_key_namespaces() {
    let err =
        parse_session_object_key("cas/team%2falpha/sessions/session-1/messages/message-1/part.txt")
            .unwrap_err();
    assert!(err.message().contains("namespace is not canonical"));
}

#[test]
fn rejects_malformed_session_object_keys() {
    let err = parse_session_object_key("cas/acme/files/f/sha").unwrap_err();
    assert_eq!(err.message(), "CAS object key is not a session object key");
    let err = parse_session_object_key("cas/acme/sessions/s/messages/m/part.bin").unwrap_err();
    assert_eq!(err.message(), "CAS object key must end with .txt");
    let err = parse_session_object_key("cas/acme/sessions/s 1/messages/m/part.txt").unwrap_err();
    assert_eq!(
        err.message(),
        "CAS object key field 'session_id' contains unsafe characters"
    );
    let err = parse_session_object_key("cas/%FF/sessions/s/messages/m/part.txt").unwrap_err();
    assert!(err
        .message()
        .starts_with("CAS object key namespace is not valid percent-encoding: "));
}

#[test]
fn session_object_keys_parse_back_to_their_scope() {
    let scope = SessionCasScope::new("Tenant:acme", "agent-a", "session-1");
    let identity = SessionObjectIdentity::new("message-1", "000001");
    let key = CasStore::new(()).session_object_key(&scope, &identity);
    let parsed = parse_session_object_key(&key).unwrap();
    assert_eq!(parsed.scope.ns, "Tenant:acme");
    assert_eq!(parsed.scope.agent, "");
    assert_eq!(parsed.scope.session_id, "session-1");
    assert_eq!(parsed.identity.part_id, "000001");
    assert!(ensure_session_key_scope(&scope, &key).is_ok());
    assert!(key.starts_with(&session_object_key_prefix(&scope)));
}

#[test]
fn rejects_keys_outside_session_scope() {
    let err = ensure_session_key_scope(
        &SessionCasScope::new("acme", "agent", "session-1"),
        "cas/acme/sessions/session-2/messages/message-1/000001.txt",
    )
    .unwrap_err();
    assert!(err.message().contains("outside the requested session scope"));
}

#[test]
fn rejects_metadata_from_different_agent() {
    let put = prepare_tool_result(
        "acme", "agent-a", "session-1", "message-1", "000001", "call-1", "search", b"hello",
    )
    .unwrap();
    let err = ensure_session_metadata_scope(
        &SessionCasScope::new("acme", "agent-b", "session-1"),
        &put.key,
        &put.metadata,
    )
    .unwrap_err();
    assert!(err.message().contains("metadata field 'agent'"));
    assert!(ensure_session_metadata_scope(
        &SessionCasScope::new("acme", "agent-a", "session-1"),
        &put.key,
        &put.metadata,
    )
    .is_ok());
}

#[test]
fn derives_scope_from_key_and_stored_metadata() {
    let put = prepare_tool_result(
        "acme", "agent-a", "session-1", "message-1", "000001", "call-1", "search", b"hello",
    )
    .unwrap();
    let parsed = parse_session_object_key(&put.key).unwrap();
    let scope = session_scope_from_key_and_metadata(&parsed.scope, &put.key, &put.metadata).unwrap();
    assert_eq!(scope.ns, "acme");
    assert_eq!(scope.agent, "agent-a");
    assert_eq!(scope.session_id, "session-1");
    let stored = StoredObject { bytes: put.bytes.clone(), metadata: put.metadata.clone() };
    assert_eq!(decode_stored_object_bytes(&stored, &put.key).unwrap(), b"hello");

    let mut blank = ObjectMetadata::default();
    blank.metadata.push((METADATA_AGENT.to_string(), "  ".to_string()));
    let err = session_scope_from_key_and_metadata(&parsed.scope, &put.key, &blank).unwrap_err();
    assert!(err.message().ends_with("metadata is missing agent"));
}

#[test]
fn stores_file_objects_with_canonical_key_and_metadata() {
    let put = prepare_file(
        "Tenant:acme:Workspace:main",
        "file-1",
        "/memory/brand guide.md",
        b"draft body",
        "text/markdown",
    );
    assert!(put
        .key
        .starts_with("cas/Tenant%3Aacme%3AWorkspace%3Amain/files/file-1/"));
    assert_eq!(put.metadata.media_type, "text/markdown");
    assert_eq!(put.metadata.filename, "brand_guide.md");
    assert_eq!(field(&put.metadata.metadata, METADATA_KIND), Some(METADATA_KIND_FILE));
    assert_eq!(field(&put.metadata.metadata, "namespace"), Some("Tenant:acme:Workspace:main"));
    assert_eq!(field(&put.metadata.metadata, "file_uid"), Some("file-1"));
    assert_eq!(field(&put.metadata.metadata, "path"), Some("/memory/brand guide.md"));
    assert_eq!(put.metadata.size_bytes, 10);
    assert_eq!(put.metadata.sha256.len(), 64);
    assert!(put.key.ends_with(&put.metadata.sha256));

    let stored = StoredObject { bytes: put.bytes.clone(), metadata: put.metadata.clone() };
    let decoded = decode_stored_object(stored, &put.key).unwrap();
    assert_eq!(decoded.bytes, b"draft body");
    assert_eq!(decoded.metadata.sha256, put.metadata.sha256);
}

#[test]
fn file_upload_metadata_names_the_file() {
    let metadata = CasStore::<()>::file_upload_metadata(
        "acme", "file-1", "/docs/Read Me.MD/", "text/markdown", "abc", 42,
    );
    assert_eq!(metadata.filename, "read_me.md");
    assert_eq!(metadata.size_bytes, 42);
    assert_eq!(metadata.sha256, "abc");
    assert!(metadata.content_encoding.is_empty());
    assert_eq!(field(&metadata.metadata, "file_uid"), Some("file-1"));
}

#[test]
fn stores_artifact_objects_with_session_ownership_metadata() {
    let put = prepare_artifact(
        "Tenant:acme:Workspace:main",
        "writer",
        "session-1",
        "artifact-1",
        "/outputs/final draft.md",
        b"draft body",
        "text/markdown",
        vec![("source".to_string(), "tool".to_string())],
    );
    assert!(put
        .key
        .starts_with("cas/Tenant%3Aacme%3AWorkspace%3Amain/artifacts/artifact-1/"));
    assert_eq!(put.metadata.filename, "final_draft.md");
    assert_eq!(field(&put.metadata.metadata, METADATA_KIND), Some(METADATA_KIND_ARTIFACT));
    assert_eq!(field(&put.metadata.metadata, METADATA_AGENT), Some("writer"));
    assert_eq!(field(&put.metadata.metadata, "namespace"), Some("Tenant:acme:Workspace:main"));
    assert_eq!(field(&put.metadata.metadata, "session_id"), Some("session-1"));
    assert_eq!(field(&put.metadata.metadata, "artifact_id"), Some("artifact-1"));
    assert_eq!(field(&put.metadata.metadata, "source"), Some("tool"));
}

#[test]
fn latest_file_objects_are_keyed_by_path() {
    let put = prepare_latest_file("acme", "//memory/notes.md", b"notes", "text/markdown");
    assert_eq!(put.key, "latest/acme/files/memory/notes.md");
    assert_eq!(field(&put.metadata.metadata, "latest"), Some("true"));
    assert_eq!(put.metadata.filename, "notes.md");
}

#[test]
fn object_keys_encode_namespace_and_sanitize_segments() {
    assert_eq!(file_object_key("a/b", "f 1", "sha"), "cas/a%2Fb/files/f_1/sha");
    assert_eq!(artifact_object_key("a", "x.y-z", "s#"), "cas/a/artifacts/x.y-z/s_");
    assert_eq!(latest_file_object_key("a:b", "/x/y"), "latest/a%3Ab/files/x/y");
    assert_eq!(object_key_segment("héllo wörld"), "h_llo_w_rld");
    assert_eq!(filename_for_path("///"), "file");
    assert_eq!(filename_for_path("a/B-c.TXT"), "b-c.txt");
}

#[test]
fn compresses_tool_result_with_gzip_when_it_saves_meaningfully() {
    let raw = "x".repeat(3 * 1024);
    let put = prepare_tool_result(
        "acme", "agent", "session-1", "message-1", "000001", "call-1", "search",
        raw.as_bytes(),
    )
    .unwrap();
    assert!(put.metadata.size_bytes < raw.len() as u64);
    assert_eq!(put.metadata.content_encoding, CONTENT_ENCODING_GZIP);
    assert_eq!(field(&put.metadata.metadata, METADATA_AGENT), Some("agent"));
    for key_derived_field in ["namespace", "session_id", "message_id", "part_id"] {
        assert!(field(&put.metadata.metadata, key_derived_field).is_none());
    }
    assert_eq!(put.metadata.filename, "call-1.txt");
    let stored = StoredObject { bytes: put.bytes.clone(), metadata: put.metadata.clone() };
    let decoded = decode_stored_object(stored, &put.key).unwrap();
    assert_eq!(decoded.bytes, raw.as_bytes());
    assert!(decoded.metadata.content_encoding.is_empty());
    assert!(field(&decoded.metadata.metadata, METADATA_CONTENT_ENCODING).is_none());
}

#[test]
fn keeps_incompressible_tool_result_raw() {
    let mut state: u64 = 42;
    let raw = (0..2 * 1024)
        .map(|_| {
            state = state.wrapping_mul(6364136223846793005).wrapping_add(1442695040888963407);
            (state >> 33) as u8
        })
        .collect::<Vec<_>>();
    let put = prepare_tool_result(
        "acme", "agent", "session-1", "message-1", "000001", "call-1", "search", &raw,
    )
    .unwrap();
    assert_eq!(put.bytes, raw);
    assert!(put.metadata.content_encoding.is_empty());
    assert!(field(&put.metadata.metadata, METADATA_CONTENT_ENCODING).is_none());
}

#[test]
fn truncates_tool_result_to_logical_storage_limit() {
    let raw = "x".repeat(MAX_TOOL_RESULT_LOGICAL_BYTES + 1024);
    let put = prepare_tool_result(
        "acme", "agent", "session-1", "message-1", "000001", "call-1", "search",
        raw.as_bytes(),
    )
    .unwrap();
    let stored = StoredObject { bytes: put.bytes.clone(), metadata: put.metadata.clone() };
    let decoded = decode_stored_object_bytes(&stored, &put.key).unwrap();
    assert_eq!(decoded.len(), MAX_TOOL_RESULT_LOGICAL_BYTES);
    assert!(decoded.ends_with(TOOL_RESULT_TRUNCATION_MARKER.as_bytes()));
    assert_eq!(
        field(&put.metadata.metadata, METADATA_UNCOMPRESSED_SIZE_BYTES),
        Some(MAX_TOOL_RESULT_LOGICAL_BYTES.to_string().as_str())
    );
}

#[test]
fn truncation_backs_off_to_a_character_boundary() {
    let mut raw = "x".repeat(MAX_TOOL_RESULT_LOGICAL_BYTES - TOOL_RESULT_TRUNCATION_MARKER.len() - 1);
    raw.push('é');
    raw.push_str(&"y".repeat(100));
    let logical = tool_result_logical_bytes(raw.as_bytes());
    assert_eq!(logical.len(), MAX_TOOL_RESULT_LOGICAL_BYTES - 1);
    assert!(std::str::from_utf8(&logical).is_ok());
    let small = tool_result_logical_bytes(b"short");
    assert_eq!(small, b"short");
}

#[test]
fn rejects_tool_result_above_logical_object_limit() {
    let raw = vec![b'x'; MAX_LOGICAL_OBJECT_BYTES as usize + 1];
    let err = prepare_tool_result(
        "acme", "agent", "session-1", "message-1", "000001", "call-1", "search", &raw,
    )
    .unwrap_err();
    assert!(err.message().contains("maximum supported logical size"));
}

#[test]
fn tool_results_below_threshold_are_not_stored() {
    let none = prepare_tool_result_if_raw_at_least(
        "acme", "agent", "s", "m", "p", "call", "tool", b"tiny", 10,
    )
    .unwrap();
    assert!(none.is_none());
    let some = prepare_tool_result_if_raw_at_least(
        "acme", "agent", "s", "m", "p", "call", "tool", b"large enough", 10,
    )
    .unwrap();
    assert!(some.is_some());
}

#[test]
fn legacy_gzip_object_decodes() {
    let raw = b"legacy gzip payload";
    let mut encoder = flate2::write::GzEncoder::new(Vec::new(), flate2::Compression::default());
    encoder.write_all(raw).unwrap();
    let gzip_bytes = encoder.finish().unwrap();
    let mut metadata = ObjectMetadata::default();
    metadata.metadata.push((METADATA_CONTENT_ENCODING.to_string(), "GZIP".to_string()));
    metadata.metadata.push((METADATA_AGENT.to_string(), "agent".to_string()));
    let stored = StoredObject { bytes: gzip_bytes, metadata };
    let decoded = decode_stored_object_bytes(&stored, "k").unwrap();
    assert_eq!(decoded, raw);
}

#[test]
fn zstd_object_decodes() {
    let raw = b"zstd payload zstd payload";
    let encoded = zstd::stream::encode_all(&raw[..], 0).unwrap();
    let mut metadata = ObjectMetadata::default();
    metadata.content_encoding = CONTENT_ENCODING_ZSTD.to_string();
    let stored = StoredObject { bytes: encoded, metadata };
    assert_eq!(decode_stored_object_bytes(&stored, "k").unwrap(), raw);
}

#[test]
fn corrupt_zstd_object_returns_decode_error() {
    let mut metadata = ObjectMetadata::default();
    metadata.content_encoding = CONTENT_ENCODING_ZSTD.to_string();
    metadata.metadata.push((METADATA_AGENT.to_string(), "agent".to_string()));
    let stored = StoredObject { bytes: b"not zstd".to_vec(), metadata };
    let err = decode_stored_object_bytes(&stored, "k").unwrap_err();
    assert!(err.message().contains("invalid zstd bytes"));
    assert!(matches!(err, CasError::InvalidEncodedBytes { .. }));
}

#[test]
fn unknown_content_encodings_and_oversized_raw_objects_are_errors() {
    let mut metadata = ObjectMetadata::default();
    metadata.content_encoding = "br".to_string();
    let stored = StoredObject { bytes: b"x".to_vec(), metadata };
    let err = decode_stored_object_bytes(&stored, "obj").unwrap_err();
    assert_eq!(err.message(), "CAS object 'obj' uses unsupported content encoding 'br'");
    let stored = StoredObject {
        bytes: vec![0u8; MAX_LOGICAL_OBJECT_BYTES as usize + 1],
        metadata: ObjectMetadata::default(),
    };
    let err = decode_stored_object_bytes(&stored, "big").unwrap_err();
    assert_eq!(err.message(), "CAS object 'big' exceeds the maximum supported size");
}

#[test]
fn compression_threshold_is_ten_percent() {
    assert!(compression_saves_meaningfully(100, 89));
    assert!(!compression_saves_meaningfully(100, 90));
    assert!(!compression_saves_meaningfully(0, 0));
    let (bytes, encoding) = compressed_object_bytes(b"abc").unwrap();
    assert_eq!(bytes, b"abc");
    assert!(encoding.is_none());
}

#[test]
fn object_refs_carry_the_metadata() {
    let put = prepare_file("acme", "f", "/a.txt", b"a", "text/plain");
    let object_ref = object_ref_from_metadata(&put.key, &put.metadata);
    assert_eq!(object_ref.key, put.key);
    assert_eq!(object_ref.sha256, put.metadata.sha256);
    assert_eq!(object_ref.filename, "a.txt");
    assert_eq!(object_ref.metadata, put.metadata.metadata);
}
