use talon_control::kv::rocksdb::{bytes_equal, delete_applies, swap_applies};
use talon_control::fields::metadata_get;
use talon_control::keys::{self, ResourceKey};
use talon_control::kv::dynamodb::{
    key_from_item, page_request, put_item, query_plan, swap_condition, take_query_row,
    value_from_item, ItemValue, PageRequest,
};
use talon_control::kv::rocksdb::{bytes_less, list_page, scan_entries, scan_step, PageError, ScanStep};
use talon_control::paging::text_less;
use talon_control::kv::dynamodb::{pk_for_key, resource_key_from_pk_sk, sk_for_key, sk_for_kind_name};
use talon_control::kv::flat;
use talon_control::kv::legacy::{
    legacy_table_plan, migrated_row_key, namespaced_key, LegacyKeyError, LegacyRowError,
    LegacyTablePlan,
};
use talon_control::kv::options::Order;
use talon_control::kv::postgres;
use talon_control::kv::rocksdb::{key_bytes, parse_key, prefix_bytes, StoredKeyError};
use talon_control::kv::shared::{sqlite_url_for_path, validate_identifier};
use talon_control::kv::sqlite;

#[test]
fn like_prefix_pattern_appends_sql_wildcard() {
    assert_eq!(flat::like_prefix_pattern("Agent/test"), "Agent/test%");
}

#[test]
fn like_prefix_pattern_escapes_like_metacharacters() {
    assert_eq!(flat::like_prefix_pattern(r"Agent_%\path"), r"Agent\_\%\\path%");
}

#[test]
fn kv_sql_builders_use_expected_table_and_clauses() {
    let create = flat::create_table_statement("talon_kv");
    assert!(create.contains("CREATE TABLE IF NOT EXISTS \"talon_kv\""));
    assert!(create.contains("PRIMARY KEY (namespace, key)"));

    assert_eq!(
        flat::get_query("talon_kv"),
        "SELECT value FROM \"talon_kv\" WHERE namespace = $1 AND key = $2"
    );
    assert!(flat::set_query("talon_kv").contains("ON CONFLICT (namespace, key) DO UPDATE"));
    assert!(flat::compare_and_swap_query("talon_kv", true).contains("AND value = $4"));
    assert!(flat::compare_and_swap_query("talon_kv", false).contains("DO NOTHING"));
    assert_eq!(
        flat::delete_query("talon_kv"),
        "DELETE FROM \"talon_kv\" WHERE namespace = $1 AND key = $2"
    );
    assert!(flat::list_keys_query("talon_kv").contains("LIKE $2 ESCAPE '\\'"));
    assert!(flat::list_entries_query("talon_kv").contains("SELECT key, value"));
    assert!(flat::delete_prefix_query("talon_kv").contains("DELETE FROM \"talon_kv\""));
}

#[test]
fn kv_validate_identifier_rejects_invalid_table_names() {
    validate_identifier("talon_kv").expect("underscores should be allowed");
    validate_identifier("talon123").expect("alphanumeric names should be allowed");
    validate_identifier("_talon").expect("leading underscore should be allowed");

    let err = validate_identifier("talon-kv").unwrap_err();
    assert!(err.message().contains("Invalid table name"));

    let empty = validate_identifier("").unwrap_err();
    assert!(empty.message().contains("Invalid table name"));

    let starts_with_digit = validate_identifier("1talon").unwrap_err();
    assert!(starts_with_digit.message().contains("must start"));

    let too_long = validate_identifier(&"a".repeat(64)).unwrap_err();
    assert!(too_long.message().contains("between 1 and 63"));

    let reserved = validate_identifier("select").unwrap_err();
    assert!(reserved.message().contains("reserved keywords"));

    validate_identifier("select_log").expect("non-keyword identifiers should be allowed");
}

#[test]
fn shared_validate_identifier_rejects_invalid_table_names() {
    validate_identifier("talon_kv").expect("underscores should be allowed");
    validate_identifier("talon123").expect("alphanumeric names should be allowed");
    validate_identifier("_talon").expect("leading underscore should be allowed");

    let err = validate_identifier("talon-kv").unwrap_err();
    assert!(err.message().contains("Invalid table name"));

    let empty = validate_identifier("").unwrap_err();
    assert!(empty.message().contains("Invalid table name"));

    let starts_with_digit = validate_identifier("1talon").unwrap_err();
    assert!(starts_with_digit.message().contains("must start"));

    let too_long = validate_identifier(&"a".repeat(64)).unwrap_err();
    assert!(too_long.message().contains("between 1 and 63"));

    let reserved = validate_identifier("select").unwrap_err();
    assert!(reserved.message().contains("reserved keywords"));

    validate_identifier("select_log").expect("non-keyword identifiers should be allowed");
}

#[test]
fn sqlite_url_formats_paths() {
    assert_eq!(sqlite_url_for_path("/tmp/talon.db"), "sqlite:///tmp/talon.db");
}

#[test]
fn session_keys_project_resource_parent_into_partition_key() {
    let key = keys::session("acme:team", "agent-1", "session-1");

    assert_eq!(pk_for_key(&key), "Namespace/acme%3Ateam/Resource/Agent/agent-1");
    assert_eq!(sk_for_key(&key), "Session/session-1");
}

#[test]
fn journal_keys_group_under_submission_parent() {
    let key = keys::session_journal_entry(
        "acme:team",
        "agent-1",
        "session-1",
        "submission-1",
        "000001",
    );

    assert_eq!(
        pk_for_key(&key),
        "Namespace/acme%3Ateam/Resource/Agent/agent-1/Session/session-1/SessionSubmission/submission-1"
    );
    assert_eq!(sk_for_key(&key), "SessionJournalEntry/000001");
}

#[test]
fn sort_keys_preserve_raw_resource_name_order() {
    let dash = sk_for_kind_name("Thing", "-");
    let colon = sk_for_kind_name("Thing", ":");

    assert!(dash < colon);
    assert_eq!(colon, "Thing/:");
}

#[test]
fn resource_key_round_trips_through_pk_and_sk() {
    let key = keys::session("acme:team", "agent-1", "session-1");

    assert_eq!(
        resource_key_from_pk_sk(&pk_for_key(&key), &sk_for_key(&key)).unwrap(),
        key
    );
}

#[test]
fn malformed_item_keys_are_rejected() {
    assert!(resource_key_from_pk_sk("Namespace/acme", "Agent/a").is_err());
    assert_eq!(
        resource_key_from_pk_sk("Namespace/acme/Resource/Agent", "Session/s").unwrap().parent_path,
        "Agent"
    );
    assert!(resource_key_from_pk_sk("Namespace/acme/Resource", "Agent").is_err());
}

#[test]
fn legacy_keys_convert_to_ordered_keys() {
    assert_eq!(
        namespaced_key("acme", "Agent/agent-1/Session/s1/Messages/m1").unwrap(),
        keys::session_message("acme", "agent-1", "s1", "m1").canonical()
    );
    assert_eq!(
        namespaced_key("Sys:ns", "Namespace/acme:team").unwrap(),
        keys::namespace_metadata("acme:team").canonical()
    );
    assert_eq!(
        namespaced_key("acme:ns:internal", "NamespaceRef/acme:team").unwrap(),
        keys::namespace_ref(Some("acme"), "team").canonical()
    );
    assert_eq!(
        namespaced_key("talon-system:ns", "Namespace/quickstart").unwrap(),
        keys::namespace_metadata("quickstart").canonical()
    );
    assert_eq!(
        namespaced_key("talon-system:ns:internal", "NamespaceRef/quickstart").unwrap(),
        keys::namespace_ref(None, "quickstart").canonical()
    );
}

#[test]
fn postgres_legacy_migration_maps_old_system_namespace_names() {
    assert_eq!(
        namespaced_key("talon-system:ns", "Namespace/quickstart").unwrap(),
        keys::namespace_metadata("quickstart").canonical()
    );
    assert_eq!(
        namespaced_key("talon-system:ns:internal", "NamespaceRef/quickstart").unwrap(),
        keys::namespace_ref(None, "quickstart").canonical()
    );
}

#[test]
fn sqlite_legacy_migration_maps_old_system_namespace_names() {
    assert_eq!(
        namespaced_key("talon-system:ns", "Namespace/quickstart").unwrap(),
        keys::namespace_metadata("quickstart").canonical()
    );
    assert_eq!(
        namespaced_key("talon-system:ns:internal", "NamespaceRef/quickstart").unwrap(),
        keys::namespace_ref(None, "quickstart").canonical()
    );
}

#[test]
fn legacy_key_shapes_map_to_resource_keys() {
    assert_eq!(
        namespaced_key("acme", "Agent/a1").unwrap(),
        keys::agent("acme", "a1").canonical()
    );
    assert_eq!(
        namespaced_key("acme", "Schedule/nightly").unwrap(),
        keys::schedule("acme", "nightly").canonical()
    );
    assert_eq!(
        namespaced_key("acme", "KnowledgeResource/docs").unwrap(),
        keys::knowledge_resource("acme", "docs").canonical()
    );
    assert_eq!(
        namespaced_key("acme", "Agent/a1/Memory/notes/today.md").unwrap(),
        keys::agent_memory("acme", "a1", "notes/today.md").canonical()
    );
    assert_eq!(
        namespaced_key("acme", "Knowledge/guides/setup.md").unwrap(),
        keys::knowledge("acme", "guides/setup.md").canonical()
    );
    assert_eq!(
        namespaced_key("acme:team:ns:internal", "NamespaceRef/acme:team:eng").unwrap(),
        keys::namespace_ref(Some("acme:team"), "eng").canonical()
    );
}

#[test]
fn legacy_keys_of_unknown_shape_are_errors() {
    let err = namespaced_key("acme", "Widget/w1").unwrap_err();
    assert!(matches!(err, LegacyKeyError::KeyShape { .. }));
    assert_eq!(
        err.message(),
        "unknown legacy key shape namespace='acme' key='Widget/w1'"
    );
    let err = namespaced_key("Sys:ns", "Agent/a").unwrap_err();
    assert_eq!(err.message(), "unknown legacy namespace metadata key 'Agent/a'");
    let err = namespaced_key("Sys:ns:internal", "Agent/a").unwrap_err();
    assert_eq!(err.message(), "unknown legacy root namespace edge key 'Agent/a'");
    let err = namespaced_key("acme:ns:internal", "Agent/a").unwrap_err();
    assert_eq!(err.message(), "unknown legacy namespace edge key 'Agent/a'");
    assert!(namespaced_key("acme", "Agent/a/Memory").is_err());
    assert!(namespaced_key("acme", "Knowledge").is_err());
}

#[test]
fn legacy_tables_are_planned_by_their_columns() {
    let cols = |names: &[&str]| names.iter().map(|n| n.to_string()).collect::<Vec<_>>();
    assert_eq!(
        legacy_table_plan("t", &cols(&["namespace", "parent_path", "kind", "name", "value"])).unwrap(),
        LegacyTablePlan::Current
    );
    assert_eq!(legacy_table_plan("t", &cols(&[])).unwrap(), LegacyTablePlan::Current);
    assert_eq!(
        legacy_table_plan("t", &cols(&["namespace", "key", "value"])).unwrap(),
        LegacyTablePlan::Migrate { namespaced: true }
    );
    assert_eq!(
        legacy_table_plan("t", &cols(&["key", "value"])).unwrap(),
        LegacyTablePlan::Migrate { namespaced: false }
    );
    let err = legacy_table_plan("talon_kv", &cols(&["value"])).unwrap_err();
    assert_eq!(err.message(), "cannot migrate talon_kv: expected legacy key column");
}

#[test]
fn legacy_rows_get_resource_keys() {
    let key = migrated_row_key(Some("acme"), "Agent/a1/Session/s1").unwrap();
    assert_eq!(key, keys::session("acme", "a1", "s1"));
    let canonical = keys::agent("acme", "a1").canonical();
    assert_eq!(migrated_row_key(None, &canonical).unwrap(), keys::agent("acme", "a1"));
    assert!(matches!(
        migrated_row_key(None, "Agent/a1"),
        Err(LegacyRowError::Canonical(_))
    ));
    assert!(matches!(
        migrated_row_key(Some("acme"), "Widget/w"),
        Err(LegacyRowError::Legacy(_))
    ));
}

#[test]
fn postgres_sql_builders_use_expected_table_and_clauses() {
    let create = postgres::create_table_statement("talon_kv");
    assert!(create.contains("CREATE TABLE IF NOT EXISTS \"talon_kv\""));
    assert!(create.contains("PRIMARY KEY (namespace, parent_path, kind, name)"));

    assert!(postgres::get_query("talon_kv").contains("WHERE namespace = $1"));
    assert!(postgres::set_query("talon_kv").contains("ON CONFLICT (namespace, parent_path, kind, name)"));
    assert!(postgres::compare_and_swap_query("talon_kv", true).contains("AND value = $6"));
    assert!(postgres::compare_and_swap_query("talon_kv", false).contains("DO NOTHING"));
    assert!(postgres::delete_query("talon_kv").contains("WHERE namespace = $1"));
    assert!(postgres::list_keys_query("talon_kv", true, Order::Asc.into()).contains("AND kind = $3"));
    assert!(postgres::list_keys_query("talon_kv", true, Order::Desc.into())
        .contains("ORDER BY kind DESC, name DESC"));
    assert!(postgres::list_keys_page_query("talon_kv").contains("ORDER BY name DESC"));
    assert!(postgres::list_entries_page_query("talon_kv")
        .contains("SELECT namespace, parent_path, kind, name, value"));
    assert!(postgres::list_entries_query("talon_kv", false, Order::Asc.into())
        .contains("ORDER BY kind ASC, name ASC"));
    assert_eq!(
        postgres::rename_migration_index_statement("talon_kv", "talon_kv_structured_key_migration"),
        "ALTER INDEX IF EXISTS \"talon_kv_structured_key_migration_pkey\" RENAME TO \"talon_kv_pkey\""
    );
}

#[test]
fn sqlite_sql_builders_use_expected_table_and_clauses() {
    let create = sqlite::create_table_statement("talon_kv");
    assert!(create.contains("CREATE TABLE IF NOT EXISTS \"talon_kv\""));
    assert!(create.contains("value BLOB NOT NULL"));
    assert!(create.contains("WITHOUT ROWID"));

    assert!(sqlite::get_query("talon_kv").contains("WHERE namespace = ?1"));
    assert!(sqlite::set_query("talon_kv").contains("excluded.value"));
    assert!(sqlite::compare_and_swap_query("talon_kv", true).contains("AND value = ?6"));
    assert!(sqlite::compare_and_swap_query("talon_kv", false).contains("DO NOTHING"));
    assert!(sqlite::delete_query("talon_kv").contains("WHERE namespace = ?1"));
    assert!(sqlite::list_keys_query("talon_kv", true).contains("AND kind = ?3"));
    assert!(sqlite::list_keys_page_query("talon_kv").contains("ORDER BY name DESC"));
    assert!(sqlite::list_entries_page_query("talon_kv")
        .contains("SELECT namespace, parent_path, kind, name, value"));
    assert!(sqlite::list_entries_query("talon_kv", false).contains("ORDER BY kind ASC, name ASC"));
}

#[test]
fn rocksdb_keys_are_canonical_text_bytes() {
    let key = keys::session("acme", "a1", "s1");
    let bytes = key_bytes(&key);
    assert_eq!(bytes, key.canonical().into_bytes());
    assert_eq!(parse_key(&bytes).unwrap(), key);
    let list = keys::session_prefix("acme", "a1");
    assert!(bytes.starts_with(&prefix_bytes(&list)));
    assert!(matches!(parse_key(&[0xff, 0xfe]), Err(StoredKeyError::NotUtf8)));
    assert!(matches!(parse_key(b"Agent/a1"), Err(StoredKeyError::Key(_))));
}

#[test]
fn resource_key_equality_is_structural() {
    let a: ResourceKey = keys::agent("acme", "a1");
    assert_eq!(a.clone(), a);
}

#[test]
fn dynamodb_items_hold_keys_and_values() {
    let key = keys::session("acme:team", "agent-1", "session-1");
    let item = put_item(&key, b"payload");
    assert_eq!(key_from_item(&item).unwrap(), key);
    assert_eq!(value_from_item(&item).unwrap(), b"payload");
    let missing = vec![("PK".to_string(), ItemValue::S("Namespace/a/Resource/".to_string()))];
    assert_eq!(key_from_item(&missing).unwrap_err().message(), "DynamoDB item missing SK attribute");
    assert_eq!(value_from_item(&missing).unwrap_err().message(), "DynamoDB item missing Value attribute");
    let wrong = vec![("Value".to_string(), ItemValue::S("x".to_string()))];
    assert_eq!(value_from_item(&wrong).unwrap_err().message(), "DynamoDB item attribute Value was not binary");
}

#[test]
fn dynamodb_queries_follow_kind_and_cursor() {
    let all = keys::agent_prefix("acme");
    let plan = query_plan(&all, None, None).unwrap();
    assert_eq!(plan.key_condition, "#pk = :pk AND begins_with(#sk, :sk_prefix)");
    assert!(plan.scan_forward);
    assert_eq!(metadata_get(&plan.values, ":pk").unwrap(), "Namespace/acme/Resource/");
    let kindless = talon_control::keys::ResourceParent::root("acme").list(None);
    let bare = query_plan(&kindless, None, None).unwrap();
    assert_eq!(bare.key_condition, "#pk = :pk");
    assert!(metadata_get(&bare.names, "#sk").is_none());
    let page = query_plan(&all, Some("b"), Some(10)).unwrap();
    assert_eq!(page.key_condition, "#pk = :pk AND #sk BETWEEN :sk_prefix AND :before_sk");
    assert!(!page.scan_forward);
    assert_eq!(metadata_get(&page.values, ":before_sk").unwrap(), "Agent/b");
    assert_eq!(metadata_get(&page.values, ":sk_prefix").unwrap(), "Agent/");
    assert_eq!(metadata_get(&page.names, "#sk").unwrap(), "SK");
    let no_kind = talon_control::keys::ResourceParent::root("acme").list(None);
    assert!(query_plan(&no_kind, Some("b"), None).is_err());
    assert!(!query_plan(&no_kind, None, Some(3)).unwrap().scan_forward);

    assert_eq!(page_request(None, 5000), PageRequest::Fetch(None));
    assert_eq!(page_request(Some(5), 5), PageRequest::Done);
    assert_eq!(page_request(Some(5), 2), PageRequest::Fetch(Some(3)));
    assert_eq!(page_request(Some(5000), 1), PageRequest::Fetch(Some(1000)));

    let mut rows = Vec::new();
    assert!(!take_query_row(&mut rows, keys::agent("acme", "c"), None, Some("b"), Some(1)));
    assert!(rows.is_empty());
    assert!(take_query_row(&mut rows, keys::agent("acme", "a"), None, Some("b"), Some(1)));
    assert_eq!(rows.len(), 1);

    let cond = swap_condition(Some(b"old"));
    assert_eq!(cond.expression, "#value = :expected");
    assert_eq!(cond.expected.unwrap(), b"old");
    let cond = swap_condition(None);
    assert_eq!(cond.expression, "attribute_not_exists(#pk)");
    assert_eq!(metadata_get(&cond.names, "#pk").unwrap(), "PK");
}

#[test]
fn rocksdb_scans_list_prefixed_keys_below_the_cursor() {
    let list = keys::session_prefix("acme", "a1");
    let prefix = prefix_bytes(&list);
    let raw = |name: &str| key_bytes(&keys::session("acme", "a1", name));
    let scanned = vec![
        (raw("s4"), 4),
        (raw("s3"), 3),
        (raw("s2"), 2),
        (raw("s1"), 1),
        (key_bytes(&keys::agent("acme", "a1")), 0),
    ];
    let cursor = raw("s3");
    let page = scan_entries(scanned.clone(), &prefix, Some(cursor.as_slice()), Some(2)).unwrap();
    assert_eq!(page.iter().map(|(k, v)| (k.name.as_str(), *v)).collect::<Vec<_>>(), vec![("s2", 2), ("s1", 1)]);
    let all = scan_entries(scanned.clone(), &prefix, None, None).unwrap();
    assert_eq!(all.len(), 4);
    assert!(scan_entries(scanned.clone(), &prefix, None, Some(0)).unwrap().is_empty());
    let mut broken = scanned;
    broken.insert(0, ([prefix.clone(), vec![0xff]].concat(), 9));
    assert!(scan_entries(broken, &prefix, None, None).is_err());

    assert_eq!(scan_step(b"abc", b"ab", None), ScanStep::Take);
    assert_eq!(scan_step(b"abc", b"ab", Some(b"abc")), ScanStep::Skip);
    assert_eq!(scan_step(b"abb", b"ab", Some(b"abc")), ScanStep::Take);
    assert_eq!(scan_step(b"b", b"ab", None), ScanStep::Stop);
    assert!(bytes_less(b"ab", b"abc"));
    assert!(!bytes_less(b"b", b"abc"));
}

#[test]
fn rocksdb_pages_go_by_name_descending_below_the_name_cursor() {
    let list = keys::session_prefix("acme", "agent-a");
    let raw = |name: &str| key_bytes(&keys::session("acme", "agent-a", name));
    let stored = vec![(raw("alpha"), vec![1]), (raw("beta"), vec![2]), (raw("gamma"), vec![3])];
    let page = list_page(&list, None, 2, stored.clone()).unwrap();
    assert_eq!(page.iter().map(|(k, v)| (k.name.as_str(), v[0])).collect::<Vec<_>>(), vec![("gamma", 3), ("beta", 2)]);
    let next = list_page(&list, Some("beta"), 2, stored.clone()).unwrap();
    assert_eq!(next.iter().map(|(k, _)| k.name.as_str()).collect::<Vec<_>>(), vec!["alpha"]);
    assert!(list_page(&list, None, 0, stored.clone()).unwrap().is_empty());
    let kindless = talon_control::keys::ResourceParent::root("acme").list(None);
    assert_eq!(list_page(&kindless, None, 2, stored).unwrap_err(), PageError::NeedsKind);

    // Names compare as texts, not as their encoded key bytes.
    let mixed = vec![(raw("a0"), vec![0]), (raw("a:"), vec![1]), (raw("a"), vec![2])];
    let below = list_page(&list, Some("a0"), 5, mixed.clone()).unwrap();
    assert_eq!(below.iter().map(|(k, _)| k.name.as_str()).collect::<Vec<_>>(), vec!["a"]);
    let all = list_page(&list, None, 5, mixed).unwrap();
    assert_eq!(all.iter().map(|(k, _)| k.name.as_str()).collect::<Vec<_>>(), vec!["a:", "a0", "a"]);
    assert!(text_less("a0", "a:"));
    assert!(text_less("a", "a0"));
    assert!(!text_less("a:", "a:"));

    let mut broken = vec![(raw("x"), vec![9])];
    broken.push(([prefix_bytes(&list), vec![0xff]].concat(), Vec::new()));
    assert!(matches!(list_page(&list, None, 2, broken), Err(PageError::Stored(StoredKeyError::NotUtf8))));
}

#[test]
fn rocksdb_swaps_and_deletes_only_on_the_expected_value() {
    assert!(swap_applies(None, None));
    assert!(!swap_applies(Some(b"v1".as_slice()), None));
    assert!(!swap_applies(None, Some(b"v1".as_slice())));
    assert!(swap_applies(Some(b"v1".as_slice()), Some(b"v1".as_slice())));
    assert!(!swap_applies(Some(b"v1".as_slice()), Some(b"v2".as_slice())));
    assert!(delete_applies(Some(b"v1".as_slice()), b"v1"));
    assert!(!delete_applies(Some(b"v1".as_slice()), b"v"));
    assert!(!delete_applies(None, b""));
    assert!(bytes_equal(b"", b""));
    assert!(!bytes_equal(b"ab", b"abc"));
}

#[test]
fn sql_pages_bind_their_parent_kind_cursor_and_size() {
    let list = talon_control::keys::ResourceParent::root("acme").list(Some("Agent"));
    assert!(matches!(talon_control::kv::shared::page_binds(&list, None, 0), Ok(None)));
    let kindless = talon_control::keys::ResourceParent::root("acme").list(None);
    assert!(matches!(talon_control::kv::shared::page_binds(&kindless, None, 0), Ok(None)));
    assert!(talon_control::kv::shared::page_binds(&kindless, None, 5).is_err());
    let binds = talon_control::kv::shared::page_binds(&list, Some("m"), 5).unwrap().unwrap();
    assert_eq!(binds.namespace, "acme");
    assert_eq!(binds.parent_path, list.parent.parent_path);
    assert_eq!(binds.kind, "Agent");
    assert_eq!(binds.before_name.as_deref(), Some("m"));
    assert_eq!(binds.limit, 5);
}
