use talon_control::keys::{
    self, agent, channel, channel_message, channel_subscription, connector_registration_id,
    connector_route, direct_child_name, file_name_for_path, file_prefix, knowledge,
    knowledge_prefix, mcp_server, mcp_server_prefix, namespace_metadata, namespace_ref,
    parse_connector_registration_id, session, session_journal_entry,
    session_journal_entry_prefix, session_message, session_prefix, session_submission,
    session_submission_prefix, ResourceKey,
};

#[test]
fn resource_keys_place_separator_before_leaf() {
    assert_eq!(
        agent("Impala:Talon", "hello-agent").canonical(),
        "@Namespace/Impala:Talon/@/Agent/hello-agent"
    );
    assert_eq!(
        session("Impala:Talon", "hello-agent", "session-id").canonical(),
        "@Namespace/Impala:Talon/Agent/hello-agent/@/Session/session-id"
    );
    assert_eq!(
        session_message("Impala:Talon", "hello-agent", "session-id", "message-id").canonical(),
        "@Namespace/Impala:Talon/Agent/hello-agent/Session/session-id/@/SessionMessage/message-id"
    );
    assert_eq!(
        session_submission("Impala:Talon", "hello-agent", "session-id", "submission-id")
            .canonical(),
        "@Namespace/Impala:Talon/Agent/hello-agent/Session/session-id/@/SessionSubmission/submission-id"
    );
    assert_eq!(
        session_journal_entry(
            "Impala:Talon",
            "hello-agent",
            "session-id",
            "submission-id",
            "000001"
        )
        .canonical(),
        "@Namespace/Impala:Talon/Agent/hello-agent/Session/session-id/SessionSubmission/submission-id/@/SessionJournalEntry/000001"
    );
    assert_eq!(
        channel("Impala:Talon", "incident-123").canonical(),
        "@Namespace/Impala:Talon/@/Channel/incident-123"
    );
    assert_eq!(
        channel_message("Impala:Talon", "incident-123", "msg-1").canonical(),
        "@Namespace/Impala:Talon/Channel/incident-123/@/ChannelMessage/msg-1"
    );
    assert_eq!(
        channel_subscription("Impala:Talon", "incident-123", "researcher").canonical(),
        "@Namespace/Impala:Talon/Channel/incident-123/@/ChannelSubscription/researcher"
    );
    assert_eq!(
        keys::file("Impala:Talon", "brand-guidelines-md-7f3a").canonical(),
        "@Namespace/Impala:Talon/@/File/brand-guidelines-md-7f3a"
    );
    assert_eq!(
        connector_route("Impala:Talon", "slack", "team\u{1f}teamId=T123").canonical(),
        "@Namespace/Impala:Talon/ConnectorClass/slack/@/Route/team%1FteamId%3DT123"
    );
}

#[test]
fn connector_registration_id_round_trips_encoded_segments() {
    let registration_id = connector_registration_id("customer/acme", "slack:prod");
    assert_eq!(
        registration_id,
        "Namespace/customer%2Facme/ConnectorClass/slack%3Aprod"
    );
    assert_eq!(
        parse_connector_registration_id(&registration_id).unwrap(),
        ("customer/acme".to_string(), "slack:prod".to_string())
    );
    assert!(parse_connector_registration_id("reg_abc").is_err());
    assert!(parse_connector_registration_id("Namespace/acme/Connector/slack").is_err());
    assert!(parse_connector_registration_id("Namespace//ConnectorClass/slack").is_err());
    assert!(parse_connector_registration_id("Namespace/acme/ConnectorClass/").is_err());
}

#[test]
fn file_names_are_derived_from_full_logical_path() {
    let acme = file_name_for_path("/memory/acme/brand-guidelines.md");
    let conic = file_name_for_path("/memory/conic/brand-guidelines.md");
    assert_ne!(acme, conic);
    assert!(acme.starts_with("memory-acme-brand-guidelines-md-"));
    assert!(conic.starts_with("memory-conic-brand-guidelines-md-"));
    assert_eq!(acme.rsplit_once('-').unwrap().1.len(), 12);
}

#[test]
fn prefixes_distinguish_direct_and_recursive_listing() {
    assert_eq!(
        session_prefix("Impala:Talon", "hello-agent").canonical_prefix(),
        "@Namespace/Impala:Talon/Agent/hello-agent/@/Session/"
    );
    assert_eq!(
        session("Impala:Talon", "hello-agent", "session-id")
            .as_parent()
            .parent_path,
        "Agent/hello-agent/Session/session-id"
    );
    assert_eq!(
        session_submission_prefix("Impala:Talon", "hello-agent", "session-id").canonical_prefix(),
        "@Namespace/Impala:Talon/Agent/hello-agent/Session/session-id/@/SessionSubmission/"
    );
    assert_eq!(
        session_journal_entry_prefix("Impala:Talon", "hello-agent", "session-id", "submission-id")
            .canonical_prefix(),
        "@Namespace/Impala:Talon/Agent/hello-agent/Session/session-id/SessionSubmission/submission-id/@/SessionJournalEntry/"
    );
    assert_eq!(
        file_prefix("Impala:Talon").canonical_prefix(),
        "@Namespace/Impala:Talon/@/File/"
    );
}

#[test]
fn names_are_encoded_per_resource_segment() {
    assert_eq!(
        knowledge("quickstart", "docs/hello world.md").canonical(),
        "@Namespace/quickstart/@/Knowledge/docs%2Fhello%20world.md"
    );
    assert_eq!(
        direct_child_name(
            &knowledge_prefix("quickstart"),
            &knowledge("quickstart", "docs/hello world.md")
        ),
        Some("docs/hello world.md".to_string())
    );
}

#[test]
fn mcp_keys_use_resource_store_kinds() {
    assert_eq!(
        mcp_server("Conic:Customers:13", "conic").canonical(),
        "@Namespace/Conic:Customers:13/@/McpServer/conic"
    );
    assert_eq!(
        mcp_server_prefix("Conic:Customers:13").canonical_prefix(),
        "@Namespace/Conic:Customers:13/@/McpServer/"
    );
}

#[test]
fn canonical_keys_parse_into_structured_columns() {
    let key = ResourceKey::parse_canonical(
        "@Namespace/quickstart/Agent/hello-agent/Session/s/@/SessionMessage/m%2F1",
    )
    .unwrap();
    assert_eq!(key.namespace, "quickstart");
    assert_eq!(key.parent_path, "Agent/hello-agent/Session/s");
    assert_eq!(key.kind, "SessionMessage");
    assert_eq!(key.name, "m/1");
    assert_eq!(
        key.canonical(),
        "@Namespace/quickstart/Agent/hello-agent/Session/s/@/SessionMessage/m%2F1"
    );
}

#[test]
fn canonical_text_reads_back_to_the_same_key() {
    let key = ResourceKey::new(
        "acme:team",
        &[("Agent", "a b"), ("Session", "s/1")],
        "SessionMessage",
        "m@x",
    );
    let parsed = ResourceKey::parse_canonical(&key.canonical()).unwrap();
    assert_eq!(parsed, key);
}

#[test]
fn malformed_canonical_keys_are_rejected() {
    assert!(ResourceKey::parse_canonical("Namespace/acme/@/Agent/a").is_err());
    assert!(ResourceKey::parse_canonical("@Namespace/acme").is_err());
    assert!(ResourceKey::parse_canonical("@Namespace/acme/Agent/a").is_err());
    assert_eq!(
        ResourceKey::parse_canonical("@Namespace/acme/Agent/@/Session/s").unwrap().parent_path,
        "Agent"
    );
    assert!(ResourceKey::parse_canonical("@Namespace/acme/@/Agent/%FF").is_err());
}

#[test]
fn namespace_metadata_and_refs_live_in_the_system_namespace() {
    assert_eq!(
        namespace_metadata("acme:team").canonical(),
        "@Namespace/Sys/@/Namespace/acme%3Ateam"
    );
    assert_eq!(
        namespace_ref(None, "acme").canonical(),
        "@Namespace/Sys/@/NamespaceRef/acme"
    );
    assert_eq!(
        namespace_ref(Some("acme"), "team").canonical(),
        "@Namespace/acme/@/NamespaceRef/team"
    );
}

#[test]
fn list_prefix_covers_its_children() {
    let list = session_prefix("acme", "agent-1");
    let key = session("acme", "agent-1", "s 1");
    assert!(list.matches(&key));
    assert!(key.canonical().starts_with(&list.canonical_prefix()));
    let other = agent("acme", "agent-1");
    assert!(!list.matches(&other));
}

#[test]
fn prefix_scan_yields_only_direct_children_of_the_kind() {
    let list = session_prefix("acme", "agent-1");
    let grandchild = session_message("acme", "agent-1", "s1", "m1");
    assert!(!list.matches(&grandchild));
    assert!(!grandchild.canonical().starts_with(&list.canonical_prefix()));
    let other_kind = ResourceKey::new("acme", &[("Agent", "agent-1")], "Artifact", "s1");
    assert!(!list.matches(&other_kind));
    assert!(!other_kind.canonical().starts_with(&list.canonical_prefix()));
    let other_namespace = session("acme2", "agent-1", "s1");
    assert!(!other_namespace.canonical().starts_with(&list.canonical_prefix()));
}

#[test]
fn distinct_keys_have_distinct_canonical_texts() {
    let a = ResourceKey::new("acme", &[], "File", "m/1");
    let b = ResourceKey::new("acme", &[], "File", "m%2F1");
    assert_ne!(a, b);
    assert_ne!(a.canonical(), b.canonical());
    assert!(a.canonical().starts_with("@Namespace/acme/"));
    assert_eq!(ResourceKey::parse_canonical(&a.canonical()), Ok(a.clone()));
    assert_eq!(ResourceKey::parse_canonical(&b.canonical()), Ok(b));
}

#[test]
fn parent_segments_give_the_built_chain_back() {
    let key = ResourceKey::new("acme", &[("Agent", "a/1"), ("Session", "s 1")], "Message", "m1");
    assert_eq!(
        key.parent_segments(),
        Ok(vec![
            keys::ResourceSegment::new("Agent", "a/1"),
            keys::ResourceSegment::new("Session", "s 1"),
        ])
    );
    let root = ResourceKey::new("acme", &[], "Agent", "a1");
    assert_eq!(root.parent_segments(), Ok(vec![]));
}

#[test]
fn parent_segments_keep_kinds_holding_at() {
    let key = ResourceKey::new("acme", &[("Ag@nt", "a1")], "Session", "s1");
    assert_eq!(key.parent_segments(), Ok(vec![keys::ResourceSegment::new("Ag@nt", "a1")]));
}
