use talon_control::json::{get, Json};
use talon_control::manifest_checks::ManifestError;
use talon_control::spec_json::{
    deployment_replica_spec_from_value, json_field_or_string, sandbox_class_spec_from_value,
    sandbox_policy_spec_from_value, sandbox_runtime_template_from_value,
    sandbox_runtime_template_to_json_value, sandbox_spec_from_value, schedule_spec_from_value,
    schedule_spec_to_json, ScheduleSpec, ScheduleTarget,
};

fn value_of(j: &Json) -> serde_json::Value {
    match j {
        Json::Null => serde_json::Value::Null,
        Json::Bool(b) => serde_json::Value::Bool(*b),
        Json::PosInt(n) => serde_json::Value::from(*n),
        Json::NegInt(n) => serde_json::Value::from(*n),
        Json::Float(t) => serde_json::from_str(t).unwrap(),
        Json::Str(t) => serde_json::Value::String(t.clone()),
        Json::Array(items) => serde_json::Value::Array(items.iter().map(value_of).collect()),
        Json::Object(es) => serde_json::Value::Object(es.iter().map(|(k, x)| (k.clone(), value_of(x))).collect()),
    }
}

fn text_of(j: &Json) -> String {
    value_of(j).to_string()
}

fn parsed(text: &str) -> serde_json::Value {
    serde_json::from_str(text).unwrap()
}

fn s(v: &str) -> Json {
    Json::Str(v.to_string())
}

fn obj(entries: Vec<(&str, Json)>) -> Json {
    Json::Object(entries.into_iter().map(|(k, v)| (k.to_string(), v)).collect())
}

fn str_at<'a>(v: &'a Json, key: &str) -> Option<&'a str> {
    match get(v, key) {
        Some(Json::Str(s)) => Some(s.as_str()),
        _ => None,
    }
}

fn policy_doc() -> Json {
    obj(vec![
        ("classRef", obj(vec![("namespace", s("system")), ("name", s("docker-code"))])),
        (
            "template",
            obj(vec![(
                "spec",
                obj(vec![
                    ("image", s("talon-zed-codex-acp:local")),
                    ("workspace", obj(vec![("mode", s("customer-repo")), ("mountPath", s("/workspace"))])),
                    ("filesystem", obj(vec![("writable", Json::Array(vec![s("/workspace")]))])),
                    ("leasePolicy", obj(vec![("mode", s("exclusive"))])),
                ]),
            )]),
        ),
        ("quota", obj(vec![("maxConcurrent", Json::PosInt(5))])),
    ])
}

#[test]
fn tests_sandbox_policy_manifest_accepts_and_renders_template_spec_shape() {
    let spec = sandbox_policy_spec_from_value(&policy_doc()).expect("sandbox policy manifest parses");
    assert_eq!(spec.max_concurrent, 5);
    let class_ref = spec.class_ref.expect("class ref");
    assert_eq!(class_ref.name, "docker-code");
    let template = spec.template.expect("runtime template");
    assert_eq!(template.image, "talon-zed-codex-acp:local");
    assert_eq!(template.workspace.as_ref().expect("workspace").mount_path, "/workspace");
    assert_eq!(template.filesystem.as_ref().unwrap().writable, vec!["/workspace".to_string()]);
    assert!(template.filesystem.as_ref().unwrap().readonly.is_empty());
    let rendered = sandbox_runtime_template_to_json_value(Some(&template));
    assert_eq!(str_at(&rendered, "image"), Some("talon-zed-codex-acp:local"));
    assert_eq!(str_at(get(&rendered, "workspace").unwrap(), "mountPath"), Some("/workspace"));
    assert_eq!(str_at(get(&rendered, "leasePolicy").unwrap(), "mode"), Some("exclusive"));
}

#[test]
fn sandbox_policy_manifest_rejects_max_concurrent_overflow() {
    let doc = obj(vec![("quota", obj(vec![("maxConcurrent", Json::PosInt(4294967296))]))]);
    let error = sandbox_policy_spec_from_value(&doc).expect_err("maxConcurrent above u32 range should fail");
    assert!(error.message().contains("maxConcurrent"));
}

#[test]
fn schedule_manifest_rejects_interval_seconds_overflow() {
    let doc = obj(vec![("kind", s("every")), ("intervalSeconds", Json::PosInt(4294967296))]);
    let error = schedule_spec_from_value(&doc).expect_err("intervalSeconds above u32 range should fail");
    assert!(error.message().contains("intervalSeconds"));
}

#[test]
fn tests_sandbox_class_manifest_normalizes_config_maps_to_json() {
    let doc = obj(vec![
        ("provider", s("docker")),
        ("providerConfig", obj(vec![("image", s("talon-zed-codex-acp:local"))])),
        ("credentials", obj(vec![("apiKey", obj(vec![("key", s("E2B_API_KEY")), ("source", s("env"))]))])),
    ]);
    let spec = sandbox_class_spec_from_value(&doc).expect("sandbox class manifest parses");
    assert_eq!(spec.provider, "docker");
    assert_eq!(spec.provider_config_json, "{\"image\":\"talon-zed-codex-acp:local\"}");
    assert_eq!(spec.credentials_json, "{\"apiKey\":{\"key\":\"E2B_API_KEY\",\"source\":\"env\"}}");
}

#[test]
fn embedded_json_fields_take_objects_or_json_text() {
    let doc = obj(vec![("providerConfigJson", s("{\"a\": 1}"))]);
    assert_eq!(json_field_or_string(&doc, "providerConfig", "providerConfigJson").unwrap(), "{\"a\": 1}");
    let doc = obj(vec![("providerConfigJson", s("{not json"))]);
    let e = json_field_or_string(&doc, "providerConfig", "providerConfigJson").unwrap_err();
    assert_eq!(e.message(), "providerConfigJson must contain valid JSON");
    let doc = obj(vec![("providerConfigJson", Json::Array(vec![Json::PosInt(1), Json::Null]))]);
    assert_eq!(json_field_or_string(&doc, "providerConfig", "providerConfigJson").unwrap(), "[1,null]");
    assert_eq!(json_field_or_string(&obj(vec![]), "providerConfig", "providerConfigJson").unwrap(), "{}");
}

#[test]
fn json_text_is_compact() {
    let v = obj(vec![
        ("n", Json::NegInt(-12)),
        ("f", Json::Float("1.5".to_string())),
        ("s", s("a\"b\n")),
        ("t", Json::Bool(true)),
        ("e", Json::Array(vec![])),
        ("o", obj(vec![])),
    ]);
    assert_eq!(value_of(&v), parsed("{\"n\":-12,\"f\":1.5,\"s\":\"a\\\"b\\n\",\"t\":true,\"e\":[],\"o\":{}}"));
}

#[test]
fn templates_check_their_mount_path_and_default_missing_parts() {
    let doc = obj(vec![("workspace", obj(vec![("mountPath", s("/etc/"))]))]);
    assert!(matches!(
        sandbox_runtime_template_from_value(&doc),
        Err(ManifestError::MountPathForbidden { .. })
    ));
    let t = sandbox_runtime_template_from_value(&obj(vec![])).unwrap();
    assert_eq!(t.image, "");
    assert_eq!(t.workspace.unwrap().mount_path, "");
    let spec = sandbox_spec_from_value(&obj(vec![("policyRef", s("coding"))])).unwrap();
    assert_eq!(spec.policy_ref, "coding");
    assert!(spec.class_ref.is_none());
    assert!(spec.runtime_template.unwrap().setup.unwrap().packages.is_empty());
    let rendered = sandbox_runtime_template_to_json_value(None);
    assert!(matches!(rendered, Json::Object(ref es) if es.is_empty()));
}

#[test]
fn policy_template_falls_back_to_the_template_field() {
    let doc = obj(vec![
        ("template", obj(vec![("image", s("img"))])),
        ("maxConcurrent", Json::PosInt(2)),
    ]);
    let spec = sandbox_policy_spec_from_value(&doc).unwrap();
    assert_eq!(spec.template.unwrap().image, "img");
    assert_eq!(spec.max_concurrent, 2);
    let doc = obj(vec![("quota", obj(vec![("maxConcurrent", s("many"))])), ("maxConcurrent", Json::PosInt(2))]);
    assert_eq!(sandbox_policy_spec_from_value(&doc).unwrap().max_concurrent, 0);
}

#[test]
fn deployment_replica_specs_read_their_reference() {
    let doc = obj(vec![
        ("deploymentRef", obj(vec![("namespace", s("customers")), ("name", s("builder"))])),
        ("targetNamespace", s("customers:acme")),
    ]);
    let spec = deployment_replica_spec_from_value(&doc);
    assert_eq!(spec.deployment_ref.unwrap().name, "builder");
    assert_eq!(spec.target_namespace, "customers:acme");
}

#[test]
fn schedule_specs_round_trip() {
    let spec = ScheduleSpec {
        kind: "every".to_string(),
        cron: String::new(),
        interval_seconds: 60,
        run_at: String::new(),
        timezone: "UTC".to_string(),
        target: Some(ScheduleTarget {
            agent: "coding".to_string(),
            session_mode: "new".to_string(),
            session_id: String::new(),
            workflow: String::new(),
        }),
        input_message: "tick".to_string(),
        enabled: false,
        input_json: "{\"a\":1}".to_string(),
    };
    let parsed = obj(vec![("a", Json::PosInt(1))]);
    let json = schedule_spec_to_json(&spec, Some(parsed));
    assert!(get(&json, "cron").is_none());
    assert!(matches!(get(&json, "enabled"), Some(Json::Bool(false))));
    assert!(matches!(get(&json, "inputJson"), Some(Json::Object(_))));
    let back = schedule_spec_from_value(&json).unwrap();
    assert_eq!(back.kind, "every");
    assert_eq!(back.interval_seconds, 60);
    assert_eq!(back.timezone, "UTC");
    assert_eq!(back.target.as_ref().unwrap().agent, "coding");
    assert_eq!(back.input_json, "{\"a\":1}");
    let raw = ScheduleSpec { input_json: "not json".to_string(), ..back };
    let json = schedule_spec_to_json(&raw, None);
    assert_eq!(str_at(&json, "inputJson"), Some("not json"));
}
