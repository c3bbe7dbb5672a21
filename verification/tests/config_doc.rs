use talon_control::config::expand_env_placeholders;
use talon_control::config_doc::{
    check_extends_cycle, check_extends_depth, config_format, format_config_chain,
    json_well_formed, merge_config_values, normalize_config_document, normalize_path,
    resolve_config_path, resolve_config_relative_paths, resolve_extend_path, take_extends,
    parse_config_value, parse_inline_config, ConfigDocError, ConfigFormat,
};
use talon_control::config_model::{talon_config, ConfigDocument, ProviderSpec, SecretSpec, ServerSpec};
use talon_control::json::{get, Json};

fn s(v: &str) -> Json {
    Json::Str(v.to_string())
}

fn obj(entries: Vec<(&str, Json)>) -> Json {
    Json::Object(entries.into_iter().map(|(k, v)| (k.to_string(), v)).collect())
}

fn str_at<'a>(v: &'a Json, key: &str) -> Option<&'a str> {
    match get(v, key) {
        Some(Json::Str(s)) => Some(s.as_str()),
        _ => None,
    }
}

fn strings(v: &[&str]) -> Vec<String> {
    v.iter().map(|x| x.to_string()).collect()
}

#[test]
fn test_env_placeholder_expansion() {
    let env = vec![("TALON_TEST_PLACEHOLDER".to_string(), "expanded".to_string())];
    assert_eq!(
        expand_env_placeholders("before ${TALON_TEST_PLACEHOLDER} ${TALON_MISSING_PLACEHOLDER} ${bad-name", &env),
        "before expanded ${TALON_MISSING_PLACEHOLDER} ${bad-name"
    );
}

#[test]
fn test_relative_paths_preserve_parent_dir_components() {
    assert_eq!(normalize_path("../workspace"), "../workspace");
    assert_eq!(normalize_path("../../data"), "../../data");
    let config = "/tmp/talon/configs/nested/talon.yaml";
    assert_eq!(resolve_config_path(config, "../../workspace").as_deref(), Some("/tmp/talon/workspace"));
    assert_eq!(resolve_config_path(config, "../../data").as_deref(), Some("/tmp/talon/data"));
}

#[test]
fn test_relative_workspace_dir_resolves_from_config_file_directory() {
    let doc = obj(vec![("workspace_dir", s("./workspace"))]);
    let r = resolve_config_relative_paths("/tmp/talon/nested/talon.yaml", doc);
    assert_eq!(str_at(&r, "workspace_dir"), Some("/tmp/talon/nested/workspace"));
}

#[test]
fn test_control_plane_relative_data_dir_resolves_from_config_file_directory() {
    let doc = obj(vec![(
        "control_plane",
        obj(vec![
            ("database", obj(vec![("driver", s("sqlite")), ("data_dir", s("./data"))])),
            ("message_broker", obj(vec![("driver", s("local_socket"))])),
            ("object_store", obj(vec![("driver", s("local")), ("path", s("./objects"))])),
        ]),
    )]);
    let r = resolve_config_relative_paths("/tmp/talon/nested/talon.yaml", doc);
    let cp = get(&r, "control_plane").unwrap();
    assert_eq!(str_at(get(cp, "database").unwrap(), "data_dir"), Some("/tmp/talon/nested/data"));
    assert_eq!(str_at(get(cp, "database").unwrap(), "driver"), Some("sqlite"));
    assert_eq!(str_at(get(cp, "object_store").unwrap(), "path"), Some("/tmp/talon/nested/objects"));
    assert_eq!(str_at(get(cp, "message_broker").unwrap(), "driver"), Some("local_socket"));
}

#[test]
fn paths_normalize_like_unix_paths() {
    assert_eq!(normalize_path("/a/./b//c/../d/"), "/a/b/d");
    assert_eq!(normalize_path("/../x"), "/x");
    assert_eq!(normalize_path("a/../../b"), "../b");
    assert_eq!(normalize_path("./"), "");
    assert_eq!(normalize_path("/"), "/");
    assert_eq!(normalize_path("a/b/.."), "a");
}

#[test]
fn absolute_or_blank_paths_are_not_rewritten() {
    assert_eq!(resolve_config_path("/etc/talon.yaml", "/var/lib/talon"), None);
    assert_eq!(resolve_config_path("/etc/talon.yaml", "   "), None);
    assert_eq!(resolve_config_path("talon.yaml", " data "), Some("data".to_string()));
    assert_eq!(resolve_config_path("conf/talon.yaml", "../data"), Some("data".to_string()));
    let doc = obj(vec![("workspace_dir", s("/abs")), ("storage", obj(vec![("objects", obj(vec![("path", Json::PosInt(3))]))]))]);
    let r = resolve_config_relative_paths("/x/talon.yaml", doc);
    assert_eq!(str_at(&r, "workspace_dir"), Some("/abs"));
    let objects = get(get(&r, "storage").unwrap(), "objects").unwrap();
    assert!(matches!(get(objects, "path"), Some(Json::PosInt(3))));
}

#[test]
fn test_config_from_toml_and_json_and_unsupported_extension() {
    assert_eq!(config_format("/tmp/x/config.toml").unwrap(), ConfigFormat::Toml);
    assert_eq!(config_format("/tmp/x/config.json").unwrap(), ConfigFormat::Json);

    let toml_text = "\ndefault_provider = \"primary\"\nworkspace_dir = \"/workspace\"\n\n[providers.primary]\ntype = \"openai\"\nmodel = \"gpt-4.1\"\napi_key = \"secret\"\n";
    let toml = parse_config_value("/tmp/x/config.toml", toml_text).unwrap();
    assert_eq!(str_at(&toml, "default_provider"), Some("primary"));
    assert_eq!(str_at(&toml, "workspace_dir"), Some("/workspace"));
    let primary = get(get(&toml, "providers").unwrap(), "primary").unwrap();
    assert_eq!(str_at(primary, "type"), Some("openai"));
    assert_eq!(str_at(primary, "model"), Some("gpt-4.1"));
    let doc = ConfigDocument {
        providers: vec![(
            "primary".to_string(),
            ProviderSpec::Openai {
                model: str_at(primary, "model").unwrap().to_string(),
                api_key: Some(SecretSpec::Plain(str_at(primary, "api_key").unwrap().to_string())),
                api: None,
            },
        )],
        llm_providers: Vec::new(),
        database: None,
        server: None,
        default_provider: Some(str_at(&toml, "default_provider").unwrap().to_string()),
        workspace_dir: Some(str_at(&toml, "workspace_dir").unwrap().to_string()),
        control_plane: None,
        storage: None,
        pubsub: None,
        controllers: Vec::new(),
        trust: None,
    };
    let config = talon_config(&doc);
    assert_eq!(config.default_provider, "primary");
    assert_eq!(config.workspace_dir, "/workspace");
    assert!(config.providers.iter().any(|(name, _)| name == "primary"));

    let json_text = "{\n  \"providers\": {\n    \"anthropic\": {\n      \"type\": \"anthropic\",\n      \"model\": \"sonnet\",\n      \"api_key\": {\"source\": \"env\", \"key\": \"ANTHROPIC_API_KEY\"}\n    }\n  },\n  \"server\": {\"host\": \"127.0.0.1\", \"port\": 8080}\n}";
    let json = parse_config_value("/tmp/x/config.json", json_text).unwrap();
    let anthropic = get(get(&json, "providers").unwrap(), "anthropic").unwrap();
    assert_eq!(str_at(anthropic, "type"), Some("anthropic"));
    let server = get(&json, "server").unwrap();
    assert!(matches!(get(server, "port"), Some(Json::PosInt(8080))));
    let doc = ConfigDocument {
        providers: vec![(
            "anthropic".to_string(),
            ProviderSpec::Anthropic {
                model: str_at(anthropic, "model").unwrap().to_string(),
                api_key: Some(SecretSpec::Ref { source: "env".to_string(), key: "ANTHROPIC_API_KEY".to_string() }),
            },
        )],
        server: Some(ServerSpec { host: str_at(server, "host").unwrap().to_string(), port: 8080 }),
        default_provider: None,
        workspace_dir: None,
        ..doc
    };
    let config = talon_config(&doc);
    assert!(config.providers.iter().any(|(name, _)| name == "anthropic"));
    assert_eq!(config.server.unwrap().port, 8080);
    assert_eq!(config.workspace_dir, ".");

    let err = parse_config_value("/tmp/x/config.txt", "invalid").unwrap_err();
    assert!(err.message().contains("Unsupported config format"));
    let err = config_format("/tmp/x/config.txt").unwrap_err();
    assert!(err.message().contains("Unsupported config format"));
}

#[test]
fn config_texts_that_do_not_read_are_refused_with_their_path() {
    let err = parse_config_value("conf/talon.yaml", "a: [").unwrap_err();
    assert!(matches!(err, ConfigDocError::Parse { format: ConfigFormat::Yaml, .. }));
    assert_eq!(err.message(), "Failed to parse YAML config 'conf/talon.yaml'");
    let err = parse_config_value("talon.json", "{").unwrap_err();
    assert_eq!(err.message(), "Failed to parse JSON config 'talon.json'");
    let err = parse_config_value("talon", "= x").unwrap_err();
    assert_eq!(err.message(), "Failed to parse TOML config 'talon'");
    let doc = parse_config_value("talon.yml", "workspace_dir: /w\nlist: [1, -2, 1.5]\n").unwrap();
    assert_eq!(str_at(&doc, "workspace_dir"), Some("/w"));
    match get(&doc, "list") {
        Some(Json::Array(items)) => {
            assert!(matches!(items[0], Json::PosInt(1)));
            assert!(matches!(items[1], Json::NegInt(-2)));
            assert!(matches!(&items[2], Json::Float(t) if t == "1.5"));
        }
        other => panic!("{other:?}"),
    }
    let inline = parse_inline_config("server:\n  port: 7000\n").unwrap();
    assert!(matches!(get(get(&inline, "server").unwrap(), "port"), Some(Json::PosInt(7000))));
    let err = parse_inline_config("a: [").unwrap_err();
    assert_eq!(err.message(), "Failed to parse TALON_CONFIG_INLINE_YAML");
}

#[test]
fn formats_follow_the_file_extension() {
    assert_eq!(config_format("talon.yml").unwrap(), ConfigFormat::Yaml);
    assert_eq!(config_format("talon.yaml").unwrap(), ConfigFormat::Yaml);
    assert_eq!(config_format("talon").unwrap(), ConfigFormat::Toml);
    assert_eq!(config_format(".talonrc").unwrap(), ConfigFormat::Toml);
    assert_eq!(config_format("dir.json/").unwrap(), ConfigFormat::Json);
    assert_eq!(config_format("a/..").unwrap(), ConfigFormat::Toml);
    assert_eq!(config_format("x.tar.gz").unwrap_err().message(), "Unsupported config format: gz");
}

#[test]
fn extends_names_paths_or_lists_of_paths() {
    let (rest, list) = take_extends(obj(vec![("extends", s("  base.yaml ")), ("a", Json::PosInt(1))]), "c.yaml").unwrap();
    assert_eq!(list, strings(&["base.yaml"]));
    assert!(get(&rest, "extends").is_none());
    assert!(matches!(get(&rest, "a"), Some(Json::PosInt(1))));
    let (_, list) = take_extends(obj(vec![("extends", Json::Array(vec![s("a.yaml"), s(" b.toml")]))]), "c").unwrap();
    assert_eq!(list, strings(&["a.yaml", "b.toml"]));
    let (_, list) = take_extends(obj(vec![("extends", Json::Null)]), "c").unwrap();
    assert!(list.is_empty());
    let (_, list) = take_extends(obj(vec![]), "c").unwrap();
    assert!(list.is_empty());
    let e = take_extends(obj(vec![("extends", Json::Array(vec![s("a"), s(" ")]))]), "c.yaml").unwrap_err();
    assert_eq!(e.message(), "Config file 'c.yaml' has an 'extends' list that must contain only non-empty path strings");
    let e = take_extends(obj(vec![("extends", s(""))]), "c.yaml").unwrap_err();
    assert_eq!(e.message(), "Config file 'c.yaml' must define 'extends' as a path string or list of path strings");
    let e = take_extends(obj(vec![("extends", Json::PosInt(2))]), "c.yaml").unwrap_err();
    assert!(matches!(e, ConfigDocError::ExtendsNotPaths { .. }));
    let e = take_extends(Json::Array(vec![]), "c.yaml").unwrap_err();
    assert_eq!(e.message(), "Config file 'c.yaml' must contain a top-level object");
}

#[test]
fn extension_paths_are_local_and_relative_to_the_file() {
    assert_eq!(resolve_extend_path("/etc/talon/talon.yaml", "base.yaml").unwrap(), "/etc/talon/base.yaml");
    assert_eq!(resolve_extend_path("talon.yaml", "base.yaml").unwrap(), "base.yaml");
    assert_eq!(resolve_extend_path("/talon.yaml", "base.yaml").unwrap(), "/base.yaml");
    assert_eq!(resolve_extend_path("/etc/talon.yaml", "/opt/base.yaml").unwrap(), "/opt/base.yaml");
    assert_eq!(resolve_extend_path("TALON_CONFIG_INLINE_YAML.yaml", "shared/base.yaml").unwrap(), "shared/base.yaml");
    let e = resolve_extend_path("/etc/talon.yaml", "https://example.com/base.yaml").unwrap_err();
    assert_eq!(
        e.message(),
        "Config extension 'https://example.com/base.yaml' is not a local file path; remote URLs are not supported"
    );
}

#[test]
fn merging_replaces_scalars_and_merges_objects() {
    let base = obj(vec![
        ("server", obj(vec![("host", s("0.0.0.0")), ("port", Json::PosInt(80))])),
        ("name", s("base")),
        ("keep", Json::Bool(true)),
    ]);
    let overlay = obj(vec![
        ("server", obj(vec![("port", Json::PosInt(8080))])),
        ("name", s("site")),
        ("extra", Json::Null),
    ]);
    assert!(json_well_formed(&overlay));
    let r = merge_config_values(base, overlay);
    let server = get(&r, "server").unwrap();
    assert_eq!(str_at(server, "host"), Some("0.0.0.0"));
    assert!(matches!(get(server, "port"), Some(Json::PosInt(8080))));
    assert_eq!(str_at(&r, "name"), Some("site"));
    assert!(matches!(get(&r, "keep"), Some(Json::Bool(true))));
    assert!(matches!(get(&r, "extra"), Some(Json::Null)));
    let r = merge_config_values(obj(vec![("a", Json::PosInt(1))]), Json::Array(vec![]));
    assert!(matches!(r, Json::Array(_)));
}

#[test]
fn well_formed_documents_name_each_field_once() {
    assert!(json_well_formed(&obj(vec![("a", obj(vec![("b", Json::Null)]))])));
    assert!(!json_well_formed(&obj(vec![("a", Json::Null), ("a", Json::Null)])));
    assert!(!json_well_formed(&Json::Array(vec![obj(vec![("x", Json::Null), ("x", Json::Bool(false))])])));
}

#[test]
fn older_field_names_fold_into_current_ones() {
    let doc = obj(vec![
        ("providers", obj(vec![("a", s("1"))])),
        ("llmProviders", obj(vec![("b", s("2"))])),
        ("modelLimits", obj(vec![("m", Json::PosInt(5))])),
    ]);
    let r = normalize_config_document(doc);
    assert!(get(&r, "llmProviders").is_none());
    assert!(get(&r, "modelLimits").is_none());
    let providers = get(&r, "providers").unwrap();
    assert_eq!(str_at(providers, "a"), Some("1"));
    assert_eq!(str_at(providers, "b"), Some("2"));
    assert!(matches!(get(get(&r, "models").unwrap(), "m"), Some(Json::PosInt(5))));
}

#[test]
fn extends_chains_are_bounded_and_acyclic() {
    let stack = strings(&["/a.yaml", "/b.yaml"]);
    assert!(check_extends_depth(&stack, "c.yaml", 32).is_ok());
    let e = check_extends_depth(&stack, "c.yaml", 33).unwrap_err();
    assert_eq!(
        e.message(),
        "configuration extends nesting exceeds maximum depth of 32 (chain: /a.yaml -> /b.yaml -> c.yaml)"
    );
    assert!(check_extends_cycle(&stack, "/c.yaml").is_ok());
    let e = check_extends_cycle(&stack, "/b.yaml").unwrap_err();
    assert_eq!(e.message(), "configuration extends cycle detected: /b.yaml -> /b.yaml");
    let e = check_extends_cycle(&stack, "/a.yaml").unwrap_err();
    assert_eq!(e.message(), "configuration extends cycle detected: /a.yaml -> /b.yaml -> /a.yaml");
    assert_eq!(format_config_chain(&Vec::new(), "x"), "x");
}

#[test]
fn extended_documents_merge_parents_in_turn_then_their_own() {
    use_merge_extended();
}

fn use_merge_extended() {
    let base = obj(vec![("a", s("base")), ("b", s("base"))]);
    let mid = obj(vec![("b", s("mid")), ("c", s("mid"))]);
    let own = obj(vec![("c", s("own"))]);
    let merged = talon_control::config_doc::merge_extended(vec![base, mid], own).unwrap();
    assert_eq!(str_at(&merged, "a"), Some("base"));
    assert_eq!(str_at(&merged, "b"), Some("mid"));
    assert_eq!(str_at(&merged, "c"), Some("own"));
    let twice = Json::Object(vec![("a".to_string(), s("1")), ("a".to_string(), s("2"))]);
    assert!(talon_control::config_doc::merge_extended(vec![twice], obj(vec![])).is_none());
    assert!(talon_control::config_doc::merge_extended(Vec::new(), obj(vec![])).is_some());
}
