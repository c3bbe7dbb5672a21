use talon_control::delegation::ResourceCondition;
use talon_control::json::{get, Json};
use talon_control::manifest_checks::{
    validate_acp_permission_policy, validate_sandbox_mount_path, ManifestError,
};
use talon_control::resource_json::{
    embedded_json_value, resource_spec_from_json, resource_spec_status_from_json, resource_spec_to_json, resource_status_from_json,
    resource_status_to_json, spec_codec, status_codec, ResourceSpecBody, ResourceStatusBody,
    SpecCodec, StatusCodec,
};
use talon_control::spec_json::{
    permission_request_spec_from_value, permission_request_spec_to_json,
    deployment_replica_spec_to_json, sandbox_class_spec_to_json, sandbox_policy_spec_to_json,
    sandbox_spec_to_json, deployment_spec_from_value, deployment_spec_to_json, DeploymentReplicaSpec,
    DeploymentSpec, SandboxClassSpec,
};
use talon_control::status_json::{
    permission_request_status_from_value, permission_request_status_to_json, AgentStatus,
    CommonStatus, PermissionRequestStatus, ResourceRef,
};
use talon_control::template_json::{
    object_meta_from_value, object_meta_to_json, template_spec_from_value, template_spec_to_json,
    ObjectMeta, TemplateSpec,
};

fn value_of(j: &Json) -> serde_json::Value {
    match j {
        Json::Null => serde_json::Value::Null,
        Json::Bool(b) => serde_json::Value::Bool(*b),
        Json::PosInt(n) => serde_json::Value::from(*n),
        Json::NegInt(n) => serde_json::Value::from(*n),
        Json::Float(t) => serde_json::from_str(t).unwrap(),
        Json::Str(t) => serde_json::Value::String(t.clone()),
        Json::Array(items) => serde_json::Value::Array(items.iter().map(value_of).collect()),
        Json::Object(es) => serde_json::Value::Object(es.iter().map(|(k, x)| (k.clone(), value_of(x))).collect()),
    }
}

fn text_of(j: &Json) -> String {
    value_of(j).to_string()
}

fn parsed(text: &str) -> serde_json::Value {
    serde_json::from_str(text).unwrap()
}

fn s(v: &str) -> Json {
    Json::Str(v.to_string())
}

fn obj(entries: Vec<(&str, Json)>) -> Json {
    Json::Object(entries.into_iter().map(|(k, v)| (k.to_string(), v)).collect())
}

fn str_at<'a>(v: &'a Json, key: &str) -> Option<&'a str> {
    match get(v, key) {
        Some(Json::Str(s)) => Some(s.as_str()),
        _ => None,
    }
}

fn u64_at(v: &Json, key: &str) -> Option<u64> {
    match get(v, key) {
        Some(Json::PosInt(n)) => Some(*n),
        _ => None,
    }
}

fn pairs(items: &[(&str, &str)]) -> Vec<(String, String)> {
    items.iter().map(|(k, v)| (k.to_string(), v.to_string())).collect()
}

fn template_doc() -> Json {
    obj(vec![
        ("kind", s("Agent")),
        ("metadata", obj(vec![("name", s("coding"))])),
        ("spec", obj(vec![("systemPrompt", s("hello"))])),
    ])
}

fn policy_doc() -> Json {
    obj(vec![
        ("classRef", obj(vec![("namespace", s("system")), ("name", s("docker-code"))])),
        (
            "template",
            obj(vec![(
                "spec",
                obj(vec![
                    ("image", s("talon-zed-codex-acp:local")),
                    ("workspace", obj(vec![("mode", s("customer-repo")), ("mountPath", s("/workspace"))])),
                    ("filesystem", obj(vec![("writable", Json::Array(vec![s("/workspace")]))])),
                    ("leasePolicy", obj(vec![("mode", s("exclusive"))])),
                ]),
            )]),
        ),
        ("quota", obj(vec![("maxConcurrent", Json::PosInt(5))])),
    ])
}

fn system_mount_policy_doc() -> Json {
    obj(vec![
        ("classRef", obj(vec![("namespace", s("system")), ("name", s("docker-code"))])),
        (
            "template",
            obj(vec![("spec", obj(vec![("workspace", obj(vec![("mountPath", s("/etc"))]))]))]),
        ),
    ])
}

fn agent_status() -> AgentStatus {
    AgentStatus {
        observed_generation: 3,
        phase: "Ready".to_string(),
        conditions: vec![ResourceCondition {
            condition_type: "Available".to_string(),
            status: "True".to_string(),
            reason: "RuntimeReady".to_string(),
            message: "agent runtime is ready".to_string(),
            last_transition_time: 42,
            observed_generation: 3,
        }],
        last_session_id: None,
    }
}

fn check_template_spec_text(spec_json: &str) {
    let rendered: serde_json::Value = serde_json::from_str(spec_json).expect("template spec JSON");
    assert_eq!(rendered["systemPrompt"], "hello");
}

#[test]
fn tests_template_manifest_normalizes_nested_spec_to_json() {
    let spec = match resource_spec_from_json("Template", "", template_doc()).expect("template manifest parses") {
        ResourceSpecBody::Template(spec) => spec,
        other => panic!("expected Template spec: {other:?}"),
    };
    check_template_spec_text(&spec.spec_json);
    assert_eq!(spec.kind, "Agent");
    assert_eq!(spec.metadata.expect("metadata").name, "coding");
}

#[test]
fn manifest_template_manifest_normalizes_nested_spec_to_json() {
    let spec = template_spec_from_value(&template_doc()).expect("template manifest parses");
    check_template_spec_text(&spec.spec_json);
}

#[test]
fn manifest_sandbox_class_manifest_normalizes_config_maps_to_json() {
    let doc = obj(vec![
        ("provider", s("docker")),
        ("providerConfig", obj(vec![("image", s("talon-zed-codex-acp:local"))])),
        ("credentials", obj(vec![("apiKey", obj(vec![("key", s("E2B_API_KEY")), ("source", s("env"))]))])),
    ]);
    let spec = match resource_spec_from_json("SandboxClass", "", doc).expect("sandbox class manifest parses") {
        ResourceSpecBody::SandboxClass(spec) => spec,
        other => panic!("expected SandboxClass spec: {other:?}"),
    };
    let provider_config: serde_json::Value =
        serde_json::from_str(&spec.provider_config_json).expect("provider config JSON");
    let credentials: serde_json::Value = serde_json::from_str(&spec.credentials_json).expect("credentials JSON");
    assert_eq!(provider_config["image"], "talon-zed-codex-acp:local");
    assert_eq!(credentials["apiKey"]["key"], "E2B_API_KEY");
}

#[test]
fn manifest_sandbox_policy_manifest_accepts_and_renders_template_spec_shape() {
    let (spec, status) = resource_spec_status_from_json("SandboxPolicy", &text_of(&policy_doc()), "{}")
        .expect("sandbox policy manifest parses");
    let spec = match spec {
        ResourceSpecBody::SandboxPolicy(spec) => spec,
        other => panic!("expected SandboxPolicy spec: {other:?}"),
    };
    assert_eq!(spec.max_concurrent, 5);
    let template = spec.template.clone().expect("runtime template");
    assert_eq!(template.image, "talon-zed-codex-acp:local");
    assert_eq!(template.workspace.expect("workspace").mount_path, "/workspace");

    let rendered = sandbox_policy_spec_to_json(&spec);
    let rendered_template = get(&rendered, "template").expect("template");
    assert_eq!(str_at(rendered_template, "image"), Some("talon-zed-codex-acp:local"));
    assert_eq!(
        str_at(get(rendered_template, "workspace").expect("workspace"), "mountPath"),
        Some("/workspace")
    );
    assert_eq!(u64_at(&rendered, "maxConcurrent"), Some(5));
    match resource_status_to_json(status) {
        Ok(Json::Object(entries)) => assert!(entries.is_empty()),
        other => panic!("status: {other:?}"),
    }
}

#[test]
fn manifest_resource_yaml_renders_common_status_conditions_when_present() {
    let json = resource_status_to_json(ResourceStatusBody::Agent(agent_status())).expect("render status");
    assert_eq!(u64_at(&json, "observedGeneration"), Some(3));
    assert_eq!(str_at(&json, "phase"), Some("Ready"));
    match get(&json, "conditions") {
        Some(Json::Array(items)) => {
            assert_eq!(str_at(&items[0], "type"), Some("Available"));
            assert_eq!(u64_at(&items[0], "observedGeneration"), Some(3));
        }
        other => panic!("conditions: {other:?}"),
    }
}

#[test]
fn manifest_sandbox_policy_manifest_rejects_system_mount_path() {
    let error = resource_spec_from_json("SandboxPolicy", "", system_mount_policy_doc())
        .expect_err("system mount path should fail");
    assert!(error.message().contains("mountPath"));
    let error = validate_sandbox_mount_path("/etc").expect_err("system mount path should fail");
    assert!(error.message().contains("mountPath"));
}

#[test]
fn manifest_agent_manifest_rejects_invalid_acp_permission_policy() {
    let error = validate_acp_permission_policy(&pairs(&[("filesystemwrite", "alllow")]))
        .expect_err("invalid permission policy should fail");
    assert!(error.message().contains("permissionPolicy"));
}

#[test]
fn kinds_route_to_their_codecs() {
    assert_eq!(spec_codec("Agent"), SpecCodec::Agent);
    assert_eq!(spec_codec("Schedule"), SpecCodec::Schedule);
    assert_eq!(spec_codec("Template"), SpecCodec::Template);
    assert_eq!(spec_codec("Workflow"), SpecCodec::Workflow);
    assert_eq!(spec_codec("Deployment"), SpecCodec::Deployment);
    assert_eq!(spec_codec("DeploymentReplica"), SpecCodec::DeploymentReplica);
    assert_eq!(spec_codec("SandboxClass"), SpecCodec::SandboxClass);
    assert_eq!(spec_codec("SandboxPolicy"), SpecCodec::SandboxPolicy);
    assert_eq!(spec_codec("Sandbox"), SpecCodec::Sandbox);
    assert_eq!(spec_codec("UsagePolicy"), SpecCodec::UsagePolicy);
    assert_eq!(spec_codec("ConnectorClass"), SpecCodec::ConnectorClass);
    assert_eq!(spec_codec("Connector"), SpecCodec::Connector);
    assert_eq!(spec_codec("File"), SpecCodec::File);
    assert_eq!(spec_codec("Task"), SpecCodec::Task);
    assert_eq!(spec_codec("Skill"), SpecCodec::Skill);
    assert_eq!(spec_codec("Worker"), SpecCodec::Worker);
    assert_eq!(spec_codec("McpServer"), SpecCodec::McpServer);
    assert_eq!(spec_codec("agent"), SpecCodec::Raw);
    assert_eq!(spec_codec("Widget"), SpecCodec::Raw);
    assert_eq!(status_codec("Template"), StatusCodec::Template);
    assert_eq!(status_codec("DeploymentReplica"), StatusCodec::DeploymentReplica);
    assert_eq!(status_codec("McpServer"), StatusCodec::McpServer);
    assert_eq!(status_codec("Widget"), StatusCodec::Raw);
}

#[test]
fn statuses_read_by_kind() {
    let doc = obj(vec![("observedGeneration", Json::PosInt(2)), ("phase", s("Ready")), ("lastSessionId", s("s-1"))]);
    match resource_status_from_json("Agent", "", doc) {
        ResourceStatusBody::Agent(status) => {
            assert_eq!(status.observed_generation, 2);
            assert_eq!(status.phase, "Ready");
            assert_eq!(status.last_session_id.as_deref(), Some("s-1"));
        }
        other => panic!("{other:?}"),
    }
    let doc = obj(vec![("phase", s("Active"))]);
    match resource_status_from_json("Skill", "", doc) {
        ResourceStatusBody::Skill(status) => assert_eq!(status.phase, "Active"),
        other => panic!("{other:?}"),
    }
    match resource_status_from_json("UsagePolicy", "", obj(vec![("x", Json::PosInt(1))])) {
        ResourceStatusBody::Schema(StatusCodec::UsagePolicy, value) => assert_eq!(u64_at(&value, "x"), Some(1)),
        other => panic!("{other:?}"),
    }
    match resource_status_from_json("Widget", "{\"a\":1}", obj(vec![("a", Json::PosInt(1))])) {
        ResourceStatusBody::Raw(text) => assert_eq!(text, "{\"a\":1}"),
        other => panic!("{other:?}"),
    }
}

#[test]
fn statuses_write_by_kind() {
    let common = CommonStatus { observed_generation: 0, phase: "Ready".to_string(), conditions: Vec::new() };
    let json = resource_status_to_json(ResourceStatusBody::Template(common)).expect("written");
    assert_eq!(value_of(&json), parsed("{\"phase\":\"Ready\"}"));
    let raw = resource_status_to_json(ResourceStatusBody::Raw("{\"a\":1}".to_string())).unwrap();
    assert_eq!(value_of(&raw), parsed("{\"a\":1}"));
    assert!(matches!(resource_status_to_json(ResourceStatusBody::Raw("  ".to_string())), Ok(Json::Null)));
    assert_eq!(
        resource_status_to_json(ResourceStatusBody::Raw("{".to_string())).unwrap_err().message(),
        "Failed to parse stored JSON value"
    );
    let held = resource_status_to_json(ResourceStatusBody::Schema(StatusCodec::Task, obj(vec![("phase", s("RUNNING"))]))).unwrap();
    assert_eq!(str_at(&held, "phase"), Some("RUNNING"));
}

#[test]
fn specs_read_by_kind() {
    match resource_spec_from_json("Widget", "{\"size\":3}", obj(vec![("size", Json::PosInt(3))])) {
        Ok(ResourceSpecBody::Raw(text)) => assert_eq!(text, "{\"size\":3}"),
        other => panic!("{other:?}"),
    }
    match resource_spec_from_json("Agent", "", obj(vec![("model", s("m"))])) {
        Ok(ResourceSpecBody::Schema(SpecCodec::Agent, value)) => assert_eq!(str_at(&value, "model"), Some("m")),
        other => panic!("{other:?}"),
    }
    match resource_spec_from_json(
        "DeploymentReplica",
        "",
        obj(vec![("targetNamespace", s("customers:acme"))]),
    ) {
        Ok(ResourceSpecBody::DeploymentReplica(spec)) => {
            assert_eq!(spec.target_namespace, "customers:acme");
            assert!(spec.deployment_ref.is_none());
        }
        other => panic!("{other:?}"),
    }
    let error = resource_spec_from_json("Schedule", "", obj(vec![("intervalSeconds", Json::PosInt(1 << 40))]))
        .expect_err("interval out of range");
    assert!(matches!(error, ManifestError::IntervalSecondsOutOfRange));
    let error = resource_spec_status_from_json("SandboxPolicy", &text_of(&system_mount_policy_doc()), "{}")
        .expect_err("spec error comes first");
    assert!(matches!(error, ManifestError::MountPathForbidden { .. }));
    let error = resource_spec_status_from_json("SandboxPolicy", "{", "{}").expect_err("spec text is not JSON");
    assert!(matches!(error, ManifestError::InvalidJson { .. }));
    let error = resource_spec_status_from_json("Widget", "{}", "[").expect_err("status text is not JSON");
    assert!(matches!(error, ManifestError::InvalidJson { .. }));
    match resource_spec_status_from_json("Widget", "{\"a\": 1}", "{}") {
        Ok((ResourceSpecBody::Raw(text), ResourceStatusBody::Raw(status))) => {
            assert_eq!(text, "{\"a\": 1}");
            assert_eq!(status, "{}");
        }
        other => panic!("{other:?}"),
    }
}

#[test]
fn object_metadata_reads_objects_and_arrays() {
    let doc = obj(vec![
        ("name", s("coding")),
        ("namespace", s("customers")),
        ("labels", obj(vec![("team", s("core"))])),
        ("extra", Json::Bool(true)),
    ]);
    let meta = object_meta_from_value(&doc).expect("metadata");
    assert_eq!(meta.name, "coding");
    assert_eq!(meta.namespace, "customers");
    assert_eq!(meta.labels, pairs(&[("team", "core")]));
    assert!(meta.annotations.is_empty());
    let meta = object_meta_from_value(&Json::Array(vec![s("coding"), s("customers")])).expect("array form");
    assert_eq!(meta.name, "coding");
    assert_eq!(meta.namespace, "customers");
    assert!(object_meta_from_value(&obj(vec![("namespace", s("customers"))])).is_none());
    assert!(object_meta_from_value(&obj(vec![("name", Json::PosInt(1))])).is_none());
    assert!(object_meta_from_value(&obj(vec![("name", s("a")), ("labels", obj(vec![("k", Json::PosInt(1))]))])).is_none());
    assert!(object_meta_from_value(&obj(vec![("name", s("a")), ("namespace", Json::Null)])).is_none());
    assert!(object_meta_from_value(&Json::Array(vec![])).is_none());
    assert!(object_meta_from_value(&Json::Array(vec![s("a"), s("b"), obj(vec![]), obj(vec![]), obj(vec![])])).is_none());
    assert!(object_meta_from_value(&Json::Null).is_none());
}

#[test]
fn template_specs_check_metadata_then_spec() {
    let error = template_spec_from_value(&obj(vec![("metadata", Json::Null)])).expect_err("null metadata");
    assert!(matches!(error, ManifestError::InvalidMetadata));
    let error = template_spec_from_value(&obj(vec![("specJson", s("{not json"))])).expect_err("bad text");
    match error {
        ManifestError::InvalidEmbeddedJson { key } => assert_eq!(key, "specJson"),
        other => panic!("{other:?}"),
    }
    let spec = template_spec_from_value(&obj(vec![("specJson", s("{\"a\":1}"))])).expect("text spec");
    assert_eq!(spec.spec_json, "{\"a\":1}");
    assert_eq!(spec.kind, "");
    assert!(spec.metadata.is_none());
    let spec = template_spec_from_value(&obj(vec![])).expect("empty spec");
    assert_eq!(spec.spec_json, "{}");
}

#[test]
fn template_specs_round_trip_with_metadata() {
    let spec = TemplateSpec {
        kind: "Agent".to_string(),
        metadata: Some(ObjectMeta {
            name: "coding".to_string(),
            namespace: "customers".to_string(),
            labels: pairs(&[("team", "core")]),
            annotations: Vec::new(),
        }),
        spec_json: "{\"systemPrompt\":\"hello\"}".to_string(),
    };
    let parsed = obj(vec![("systemPrompt", s("hello"))]);
    let json = template_spec_to_json(&spec, parsed);
    let back = template_spec_from_value(&json).expect("read back");
    assert_eq!(back.kind, spec.kind);
    assert_eq!(back.spec_json, spec.spec_json);
    let meta = back.metadata.expect("metadata");
    assert_eq!(meta.name, "coding");
    assert_eq!(meta.labels, pairs(&[("team", "core")]));
    let without = TemplateSpec { kind: "Agent".to_string(), metadata: None, spec_json: "{}".to_string() };
    let json = template_spec_to_json(&without, obj(vec![]));
    assert!(matches!(get(&json, "metadata"), Some(Json::Null)));
    assert!(matches!(template_spec_from_value(&json), Err(ManifestError::InvalidMetadata)));
}

#[test]
fn object_metadata_writes_every_field() {
    let meta = ObjectMeta {
        name: "n".to_string(),
        namespace: String::new(),
        labels: Vec::new(),
        annotations: pairs(&[("a", "b")]),
    };
    assert_eq!(value_of(&object_meta_to_json(&meta)), parsed("{\"name\":\"n\",\"namespace\":\"\",\"labels\":{},\"annotations\":{\"a\":\"b\"}}"));
}

#[test]
fn spec_writers_give_their_documents() {
    let spec = DeploymentReplicaSpec { deployment_ref: None, target_namespace: "customers:acme".to_string() };
    assert_eq!(value_of(&deployment_replica_spec_to_json(&spec)), parsed("{\"deploymentRef\":null,\"targetNamespace\":\"customers:acme\"}"));
    let spec = DeploymentReplicaSpec {
        deployment_ref: Some(ResourceRef { namespace: "system".to_string(), name: "web".to_string() }),
        target_namespace: String::new(),
    };
    assert_eq!(value_of(&deployment_replica_spec_to_json(&spec)), parsed("{\"deploymentRef\":{\"namespace\":\"system\",\"name\":\"web\"},\"targetNamespace\":\"\"}"));
    let class = SandboxClassSpec {
        provider: "docker".to_string(),
        provider_config_json: "{\"image\":\"x\"}".to_string(),
        credentials_json: "{}".to_string(),
    };
    let json = sandbox_class_spec_to_json(&class, obj(vec![("image", s("x"))]), obj(vec![]));
    assert_eq!(value_of(&json), parsed("{\"provider\":\"docker\",\"providerConfig\":{\"image\":\"x\"},\"credentials\":{}}"));
    let sandbox = match resource_spec_from_json(
        "Sandbox",
        "",
        obj(vec![("policyRef", s("coding")), ("runtimeTemplate", obj(vec![("image", s("img"))]))]),
    ) {
        Ok(ResourceSpecBody::Sandbox(spec)) => spec,
        other => panic!("{other:?}"),
    };
    let json = sandbox_spec_to_json(&sandbox);
    assert_eq!(str_at(&json, "policyRef"), Some("coding"));
    assert!(matches!(get(&json, "classRef"), Some(Json::Null)));
    assert_eq!(str_at(get(&json, "runtimeTemplate").expect("template"), "image"), Some("img"));
}

#[test]
fn permission_requests_read_and_write() {
    let doc = obj(vec![
        ("agent", s("coder")),
        ("sessionId", s("s-1")),
        ("action", s("terminal")),
        ("payload", obj(vec![("command", s("ls"))])),
    ]);
    let spec = permission_request_spec_from_value(&doc);
    assert_eq!(spec.agent, "coder");
    assert_eq!(spec.session_id, "s-1");
    assert_eq!(spec.action, "terminal");
    assert_eq!(spec.prompt, "");
    assert_eq!(spec.payload_json, "{\"command\":\"ls\"}");
    assert_eq!(permission_request_spec_from_value(&obj(vec![])).payload_json, "null");
    let json = permission_request_spec_to_json(&spec, obj(vec![("command", s("ls"))]));
    assert_eq!(value_of(&json), parsed("{\"agent\":\"coder\",\"sessionId\":\"s-1\",\"action\":\"terminal\",\"prompt\":\"\",\"payload\":{\"command\":\"ls\"}}"));

    let status = PermissionRequestStatus {
        observed_generation: 1,
        phase: "Decided".to_string(),
        conditions: Vec::new(),
        decision: "allow".to_string(),
        decided_by: String::new(),
        decided_at: -5,
    };
    let json = permission_request_status_to_json(&status);
    assert_eq!(value_of(&json), parsed("{\"observedGeneration\":1,\"phase\":\"Decided\",\"decision\":\"allow\",\"decidedAt\":-5}"));
    let back = permission_request_status_from_value(&json);
    assert_eq!(back.decision, "allow");
    assert_eq!(back.decided_by, "");
    assert_eq!(back.decided_at, -5);
    assert_eq!(back.observed_generation, 1);
}

#[test]
fn specs_write_by_kind() {
    let spec = resource_spec_from_json("Template", "", template_doc()).unwrap();
    let json = resource_spec_to_json(spec).unwrap();
    assert_eq!(str_at(&json, "kind"), Some("Agent"));
    assert_eq!(str_at(get(&json, "spec").unwrap(), "systemPrompt"), Some("hello"));
    assert_eq!(str_at(get(&json, "metadata").unwrap(), "name"), Some("coding"));

    let spec = resource_spec_from_json("SandboxPolicy", "", policy_doc()).unwrap();
    let json = resource_spec_to_json(spec).unwrap();
    assert_eq!(str_at(get(&json, "template").unwrap(), "image"), Some("talon-zed-codex-acp:local"));

    let class = SandboxClassSpec {
        provider: "docker".to_string(),
        provider_config_json: "{\"image\": \"x\"}".to_string(),
        credentials_json: "  ".to_string(),
    };
    let json = resource_spec_to_json(ResourceSpecBody::SandboxClass(class)).unwrap();
    assert_eq!(value_of(&json), parsed("{\"provider\":\"docker\",\"providerConfig\":{\"image\":\"x\"},\"credentials\":{}}"));
    let bad = SandboxClassSpec {
        provider: String::new(),
        provider_config_json: "{".to_string(),
        credentials_json: String::new(),
    };
    let err = resource_spec_to_json(ResourceSpecBody::SandboxClass(bad)).unwrap_err();
    assert_eq!(err.message(), "Failed to parse embedded JSON");

    assert!(matches!(resource_spec_to_json(ResourceSpecBody::Raw(" ".to_string())), Ok(Json::Null)));
    let raw = resource_spec_to_json(ResourceSpecBody::Raw("{\"a\":[1]}".to_string())).unwrap();
    assert_eq!(value_of(&raw), parsed("{\"a\":[1]}"));
    let err = resource_spec_to_json(ResourceSpecBody::Raw("nope".to_string())).unwrap_err();
    assert_eq!(err.message(), "Failed to parse stored JSON value");
    let held = resource_spec_to_json(ResourceSpecBody::Schema(SpecCodec::Agent, obj(vec![("model", s("m"))]))).unwrap();
    assert_eq!(value_of(&held), parsed("{\"model\":\"m\"}"));
    match resource_spec_to_json(ResourceSpecBody::Schema(SpecCodec::Worker, obj(vec![("x", s("y"))]))) {
        Ok(Json::Object(entries)) => assert!(entries.is_empty()),
        other => panic!("{other:?}"),
    }
    assert!(matches!(embedded_json_value(""), Ok(Json::Object(ref e)) if e.is_empty()));
}

#[test]
fn deployment_and_skill_specs_read_and_write() {
    let doc = obj(vec![
        (
            "placement",
            obj(vec![(
                "namespaceSelector",
                obj(vec![("parent", s("Tenant:acme")), ("matchLabels", obj(vec![("tier", s("gold"))]))]),
            )]),
        ),
        ("templates", Json::Array(vec![obj(vec![("kind", s("Agent"))])])),
    ]);
    let spec = match resource_spec_from_json("Deployment", "", doc) {
        Ok(ResourceSpecBody::Deployment(spec)) => spec,
        other => panic!("{other:?}"),
    };
    let selector = spec.namespace_selector.clone().unwrap();
    assert_eq!(selector.parent, "Tenant:acme");
    assert_eq!(selector.match_labels, vec![("tier".to_string(), "gold".to_string())]);
    assert_eq!(spec.templates.len(), 1);
    let json = resource_spec_to_json(ResourceSpecBody::Deployment(spec)).unwrap();
    assert_eq!(value_of(&json), parsed("{\"placement\":{\"namespaceSelector\":{\"parent\":\"Tenant:acme\",\"matchLabels\":{\"tier\":\"gold\"}}},\"templates\":[{\"kind\":\"Agent\"}]}"));

    let empty = DeploymentSpec { namespace_selector: None, templates: Vec::new() };
    let json = deployment_spec_to_json(empty);
    assert_eq!(value_of(&json), parsed("{\"placement\":{\"namespaceSelector\":null},\"templates\":[]}"));

    let read = deployment_spec_from_value(obj(vec![("templates", s("nope"))]));
    let selector = read.namespace_selector.unwrap();
    assert_eq!(selector.parent, "");
    assert!(selector.match_labels.is_empty());
    assert!(read.templates.is_empty());
    let mixed = obj(vec![(
        "placement",
        obj(vec![("namespaceSelector", obj(vec![("matchLabels", obj(vec![("a", s("b")), ("n", Json::PosInt(1))]))]))]),
    )]);
    assert!(deployment_spec_from_value(mixed).namespace_selector.unwrap().match_labels.is_empty());

    let skill = obj(vec![("description", s("Writes copy")), ("instructions", s("Be brief")), ("extra", s("x"))]);
    let spec = match resource_spec_from_json("Skill", "", skill) {
        Ok(ResourceSpecBody::Skill(spec)) => spec,
        other => panic!("{other:?}"),
    };
    let json = resource_spec_to_json(ResourceSpecBody::Skill(spec)).unwrap();
    assert_eq!(value_of(&json), parsed("{\"description\":\"Writes copy\",\"instructions\":\"Be brief\"}"));
    let err = resource_spec_from_json("Skill", "", obj(vec![("description", s(" "))])).unwrap_err();
    assert_eq!(err.message(), "Skill spec.description is required");
    let err = resource_spec_from_json("Skill", "", obj(vec![("description", s("d"))])).unwrap_err();
    assert_eq!(err.message(), "Skill spec.instructions is required");
}

#[test]
fn codec_registry_reads_and_writes_by_kind() {
    let registry = talon_control::resource_json::ResourceCodecRegistry::new();
    let (spec, status) = registry
        .decode_flat("Widget", obj(vec![("size", Json::PosInt(3))]), obj(vec![]))
        .unwrap();
    match &spec {
        ResourceSpecBody::Raw(text) => assert_eq!(text, "{\"size\":3}"),
        other => panic!("{other:?}"),
    }
    assert_eq!(value_of(&registry.canonical_spec_json(spec).unwrap()), parsed("{\"size\":3}"));
    assert_eq!(value_of(&registry.canonical_status_json(status).unwrap()), parsed("{}"));
    let err = registry
        .decode_flat("Skill", obj(vec![("description", s(""))]), obj(vec![]))
        .unwrap_err();
    assert_eq!(err.message(), "Skill spec.description is required");
}

#[test]
fn file_specs_read_names_and_keep_numbered_documents() {
    let spec = match resource_spec_from_json("File", "", obj(vec![("purpose", s("file-purpose-artifact")), ("path", s("/a"))])) {
        Ok(ResourceSpecBody::File(spec)) => spec,
        other => panic!("{other:?}"),
    };
    let json = resource_spec_to_json(ResourceSpecBody::File(spec)).unwrap();
    assert_eq!(
        value_of(&json),
        parsed("{\"path\":\"/a\",\"mediaType\":\"\",\"purpose\":\"ARTIFACT\",\"indexPolicy\":\"UNSPECIFIED\",\"retention\":\"UNSPECIFIED\"}")
    );
    let err = resource_spec_from_json("File", "", obj(vec![("retention", s("forever"))])).unwrap_err();
    assert_eq!(err.message(), "invalid FileRetention: unsupported value 'FOREVER'");
    let err = resource_spec_from_json("File", "", obj(vec![("path", Json::PosInt(3))])).unwrap_err();
    assert_eq!(err.message(), "File spec.path must be a string");
    match resource_spec_from_json("File", "", obj(vec![("purpose", Json::PosInt(1))])) {
        Ok(ResourceSpecBody::Schema(SpecCodec::File, held)) => assert!(matches!(get(&held, "purpose"), Some(Json::PosInt(1)))),
        other => panic!("{other:?}"),
    }
}
