use talon_control::config::{OidcGrantKind, OidcTrustEntry, OidcTrustGrant, TrustConfig};
use talon_control::config_model::{
    checked_talon_config, control_plane_config, merged_providers, oidc_trust, provider_config,
    secret_from_spec, secret_source, secret_source_named, talon_config, BrokerSpec, CallbackAuthConfig,
    CallbackAuthSpec, ConfigCheckError, ConfigDocument, ControlPlaneSpec, ControllerSpec,
    DatabaseSpec, ObjectStoreBackend, ObjectStoreSpec, ProviderConfig, ProviderSpec,
    SchedulerBackend, SchedulerSpec, Secret, SecretSource, SecretSpec, ServerSpec, StorageSpec,
};

fn text(v: &str) -> Option<String> {
    Some(v.to_string())
}

fn empty_document() -> ConfigDocument {
    ConfigDocument {
        providers: Vec::new(),
        llm_providers: Vec::new(),
        database: None,
        server: None,
        default_provider: None,
        workspace_dir: None,
        control_plane: None,
        storage: None,
        pubsub: None,
        controllers: Vec::new(),
        trust: None,
    }
}

fn database(driver: &str) -> DatabaseSpec {
    DatabaseSpec { data_dir: None, driver: text(driver), url: None }
}

#[test]
fn test_serde_config_into_proto_preserves_scheduler_and_secret_variants() {
    let doc = ConfigDocument {
        providers: vec![
            (
                "primary".to_string(),
                ProviderSpec::OpenaiCompatible {
                    base_url: "https://llm.example.com".to_string(),
                    model: "model-x".to_string(),
                    api_key: Some(SecretSpec::Ref { source: "azure".to_string(), key: "azure-key".to_string() }),
                },
            ),
            (
                "backup".to_string(),
                ProviderSpec::Google {
                    model: "gemini".to_string(),
                    api_key: Some(SecretSpec::Plain("plain".to_string())),
                },
            ),
        ],
        llm_providers: Vec::new(),
        database: Some(DatabaseSpec {
            data_dir: text("./data"),
            driver: text("sqlite"),
            url: Some(SecretSpec::Plain("postgres://db".to_string())),
        }),
        server: Some(ServerSpec { host: "0.0.0.0".to_string(), port: 7000 }),
        default_provider: text("primary"),
        workspace_dir: None,
        control_plane: Some(ControlPlaneSpec {
            database: DatabaseSpec {
                data_dir: None,
                driver: text("postgres"),
                url: Some(SecretSpec::Ref { source: "keychain".to_string(), key: "db-url".to_string() }),
            },
            message_broker: BrokerSpec { driver: "pubsub".to_string() },
            scheduler: Some(SchedulerSpec::CloudTasks {
                project_id: text("project"),
                location: text("us-central1"),
                queue: text("talon"),
                target_url: text("https://worker.example.com"),
                callback_auth: Some(CallbackAuthSpec::GoogleOidc {
                    audience: "https://worker.example.com".to_string(),
                    service_account_email: text("svc@example.com"),
                }),
            }),
            object_store: Some(ObjectStoreSpec::S3 {
                bucket: "talon-objects".to_string(),
                prefix: text("dev"),
                region: text("us-west-2"),
                endpoint_url: text("https://s3.example.com"),
                force_path_style: Some(true),
            }),
            documents: None,
        }),
        storage: None,
        pubsub: None,
        controllers: Vec::new(),
        trust: None,
    };

    let config = talon_config(&doc);
    assert_eq!(config.workspace_dir, ".");
    assert_eq!(config.default_provider, "primary");
    assert_eq!(config.server.as_ref().unwrap().port, 7000);
    let control_plane = config.control_plane.as_ref().unwrap();
    assert_eq!(control_plane.message_broker.driver, "pubsub");

    let provider = &config.providers.iter().find(|(name, _)| name == "primary").unwrap().1;
    let ProviderConfig::OpenAiCompatible { base_url, api_key, .. } = provider else {
        panic!("expected openai compatible provider");
    };
    assert_eq!(base_url, "https://llm.example.com");
    let Some(Secret::Ref { source, .. }) = api_key else {
        panic!("expected secret ref");
    };
    assert_eq!(*source, SecretSource::Azure);

    let Some(SchedulerBackend::CloudTasks { project_id, callback_auth, .. }) = &control_plane.scheduler else {
        panic!("expected cloud tasks scheduler");
    };
    assert_eq!(project_id, "project");
    let Some(CallbackAuthConfig::GoogleOidc { service_account_email, .. }) = callback_auth else {
        panic!("expected oidc auth");
    };
    assert_eq!(service_account_email, "svc@example.com");

    let Some(ObjectStoreBackend::S3 { bucket, prefix, region, endpoint_url, force_path_style }) =
        &control_plane.object_store
    else {
        panic!("expected s3 object store");
    };
    assert_eq!(bucket, "talon-objects");
    assert_eq!(prefix, "dev");
    assert_eq!(region, "us-west-2");
    assert_eq!(endpoint_url, "https://s3.example.com");
    assert!(*force_path_style);
}

#[test]
fn test_secret_from_serde_secret_maps_known_and_unknown_sources() {
    let Secret::Plain(value) = secret_from_spec(&SecretSpec::Plain("value".to_string())) else {
        panic!("expected plain secret");
    };
    assert_eq!(value, "value");

    let Secret::Ref { source, key } =
        secret_from_spec(&SecretSpec::Ref { source: "unknown".to_string(), key: "NAME".to_string() })
    else {
        panic!("expected secret ref");
    };
    assert_eq!(source, SecretSource::Env);
    assert_eq!(key, "NAME");
}

#[test]
fn secret_sources_are_read_without_regard_to_case() {
    assert_eq!(secret_source("env"), SecretSource::Env);
    assert_eq!(secret_source("GCP"), SecretSource::Gcp);
    assert_eq!(secret_source("KeyChain"), SecretSource::Keychain);
    assert_eq!(secret_source("aws"), SecretSource::Aws);
    assert_eq!(secret_source("Azure"), SecretSource::Azure);
    assert_eq!(secret_source("vault"), SecretSource::Env);
    assert_eq!(secret_source(""), SecretSource::Env);
}

#[test]
fn providers_take_defaults() {
    match provider_config(&ProviderSpec::Openai { model: "gpt".to_string(), api_key: None, api: None }) {
        ProviderConfig::OpenAi { model, api_key, org_id, api } => {
            assert_eq!(model, "gpt");
            assert!(api_key.is_none());
            assert_eq!(org_id, "");
            assert_eq!(api, "");
        }
        other => panic!("{other:?}"),
    }
    match provider_config(&ProviderSpec::OpenaiCompatible {
        base_url: "u".to_string(),
        model: "m".to_string(),
        api_key: None,
    }) {
        ProviderConfig::OpenAiCompatible { name, base_url, .. } => {
            assert_eq!(name, "");
            assert_eq!(base_url, "u");
        }
        other => panic!("{other:?}"),
    }
}

#[test]
fn llm_providers_replace_providers_of_the_same_name() {
    let google = |model: &str| ProviderSpec::Google { model: model.to_string(), api_key: None };
    let providers = vec![("a".to_string(), google("a1")), ("b".to_string(), google("b1"))];
    let llm = vec![("b".to_string(), google("b2")), ("c".to_string(), google("c1"))];
    let merged = merged_providers(&providers, &llm);
    assert_eq!(merged.len(), 3);
    let model_of = |name: &str| match &merged.iter().find(|(n, _)| n == name).unwrap().1 {
        ProviderConfig::Google { model, .. } => model.clone(),
        other => panic!("{other:?}"),
    };
    assert_eq!(model_of("a"), "a1");
    assert_eq!(model_of("b"), "b2");
    assert_eq!(model_of("c"), "c1");
}

#[test]
fn storage_sections_stand_in_for_a_missing_control_plane() {
    let storage = Some(StorageSpec {
        control: database("sqlite"),
        data: None,
        documents: Some(database("postgres")),
        objects: Some(ObjectStoreSpec::Local { path: None }),
    });
    let cp = control_plane_config(&None, &storage, &None).expect("control plane from storage");
    assert_eq!(cp.message_broker.driver, "local_socket");
    assert_eq!(cp.database.driver, "sqlite");
    assert_eq!(cp.database.data_dir, "");
    assert_eq!(cp.documents.as_ref().unwrap().driver, "postgres");
    assert!(cp.scheduler.is_none());
    assert!(matches!(cp.object_store, Some(ObjectStoreBackend::Local { ref path }) if path.is_empty()));

    let pubsub = Some(BrokerSpec { driver: "gcp_pubsub".to_string() });
    let cp = control_plane_config(&None, &storage, &pubsub).expect("control plane from storage");
    assert_eq!(cp.message_broker.driver, "gcp_pubsub");

    let explicit = Some(ControlPlaneSpec {
        database: database("postgres"),
        message_broker: BrokerSpec { driver: "local_socket".to_string() },
        scheduler: None,
        object_store: None,
        documents: None,
    });
    let cp = control_plane_config(&explicit, &storage, &pubsub).expect("explicit control plane");
    assert_eq!(cp.database.driver, "postgres");
    assert_eq!(cp.message_broker.driver, "local_socket");
    assert!(cp.object_store.is_none());

    assert!(control_plane_config(&None, &None, &pubsub).is_none());
}

#[test]
fn event_bridge_schedulers_take_defaults() {
    let doc = ConfigDocument {
        control_plane: Some(ControlPlaneSpec {
            database: database("postgres"),
            message_broker: BrokerSpec { driver: "local_socket".to_string() },
            scheduler: Some(SchedulerSpec::AwsEventBridgeScheduler {
                group_name: text("g"),
                queue_url: None,
                execution_role_arn: None,
                schedule_name_prefix: None,
                dlq_arn: None,
                maximum_event_age_seconds: None,
                maximum_retry_attempts: Some(3),
                endpoint_url: None,
            }),
            object_store: None,
            documents: None,
        }),
        workspace_dir: text("/srv"),
        controllers: vec![("sessions".to_string(), ControllerSpec { enabled: true, workers: 4 })],
        ..empty_document()
    };
    let config = talon_config(&doc);
    assert_eq!(config.workspace_dir, "/srv");
    assert_eq!(config.controllers.len(), 1);
    assert_eq!(config.controllers[0].1.workers, 4);
    match &config.control_plane.unwrap().scheduler {
        Some(SchedulerBackend::AwsEventBridgeScheduler {
            group_name,
            queue_url,
            maximum_event_age_seconds,
            maximum_retry_attempts,
            ..
        }) => {
            assert_eq!(group_name, "g");
            assert_eq!(queue_url, "");
            assert_eq!(*maximum_event_age_seconds, 0);
            assert_eq!(*maximum_retry_attempts, Some(3));
        }
        other => panic!("{other:?}"),
    }
    let shared = CallbackAuthSpec::SharedSecret { token: SecretSpec::Plain("t".to_string()) };
    let doc = ConfigDocument {
        control_plane: Some(ControlPlaneSpec {
            database: database("postgres"),
            message_broker: BrokerSpec { driver: "local_socket".to_string() },
            scheduler: Some(SchedulerSpec::CloudTasks {
                project_id: None,
                location: None,
                queue: None,
                target_url: None,
                callback_auth: Some(shared),
            }),
            object_store: Some(ObjectStoreSpec::Gcs { bucket: "b".to_string(), prefix: None, api_base_url: None }),
            documents: None,
        }),
        ..empty_document()
    };
    let cp = talon_config(&doc).control_plane.unwrap();
    assert!(matches!(
        cp.scheduler,
        Some(SchedulerBackend::CloudTasks { callback_auth: Some(CallbackAuthConfig::SharedSecret(Secret::Plain(_))), .. })
    ));
    assert!(matches!(cp.object_store, Some(ObjectStoreBackend::Gcs { ref prefix, .. }) if prefix.is_empty()));
}

fn trust_entry(audience: Option<&str>, audiences: &[&str]) -> OidcTrustEntry {
    OidcTrustEntry {
        name: "ci".to_string(),
        issuer: "https://issuer.example".to_string(),
        audience: audience.map(str::to_string),
        audiences: audiences.iter().map(|a| a.to_string()).collect(),
        allowed_domains: vec!["example.com".to_string()],
        allowed_emails: Vec::new(),
        jwks_url: None,
        clock_skew_seconds: None,
        grants: vec![OidcTrustGrant {
            kind: OidcGrantKind::Readwrite,
            namespace: "acme".to_string(),
            agent: String::new(),
            session: String::new(),
            channel: String::new(),
        }],
    }
}

#[test]
fn trust_entries_put_their_single_audience_first() {
    let t = oidc_trust(&trust_entry(Some("talon"), &["other"]));
    assert_eq!(t.audiences, vec!["talon".to_string(), "other".to_string()]);
    assert_eq!(t.jwks_url, "");
    assert_eq!(t.clock_skew_seconds, 0);
    assert_eq!(t.allowed_domains, vec!["example.com".to_string()]);
    assert_eq!(t.grants.len(), 1);
    assert_eq!(t.grants[0].kind, OidcGrantKind::Readwrite);
    let t = oidc_trust(&trust_entry(Some("  "), &["other"]));
    assert_eq!(t.audiences, vec!["other".to_string()]);
    let t = oidc_trust(&trust_entry(None, &[]));
    assert!(t.audiences.is_empty());
}

#[test]
fn checked_documents_report_trust_before_providers() {
    let mut doc = empty_document();
    doc.providers = vec![(
        "p".to_string(),
        ProviderSpec::Openai { model: "m".to_string(), api_key: None, api: text("legacy") },
    )];
    match checked_talon_config(&doc) {
        Err(ConfigCheckError::Provider(e)) => {
            assert_eq!(e.name, "p");
            assert_eq!(e.api, "legacy");
        }
        other => panic!("{other:?}"),
    }
    doc.trust = Some(TrustConfig { oidc: vec![trust_entry(None, &[])] });
    let error = checked_talon_config(&doc).expect_err("trust entry without audience");
    assert!(matches!(error, ConfigCheckError::Trust(_)));
    assert_eq!(error.message(), "trust.oidc entry 'ci' must declare at least one audience");
    doc.providers = Vec::new();
    doc.trust = Some(TrustConfig { oidc: vec![trust_entry(Some("talon"), &[])] });
    let config = checked_talon_config(&doc).expect("valid document");
    assert_eq!(config.trust.unwrap()[0].audiences, vec!["talon".to_string()]);
}

#[test]
fn lowered_source_names_name_their_source() {
    assert_eq!(secret_source_named("aws"), SecretSource::Aws);
    assert_eq!(secret_source_named("AWS"), SecretSource::Env);
    assert_eq!(secret_source_named("vault"), SecretSource::Env);
}
