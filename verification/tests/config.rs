use talon_control::config::{
    expand_env_placeholders, validate_oidc_trust_grant, validate_provider_config,
    validate_trust_config, OidcGrantKind, OidcTrustEntry, OidcTrustGrant, ProviderKind,
    ProviderSettings, TrustConfig, TrustProblem,
};

fn grant(namespace: &str, agent: &str, session: &str, channel: &str) -> OidcTrustGrant {
    OidcTrustGrant {
        kind: OidcGrantKind::Read,
        namespace: namespace.to_string(),
        agent: agent.to_string(),
        session: session.to_string(),
        channel: channel.to_string(),
    }
}

fn entry(name: &str, grants: Vec<OidcTrustGrant>) -> OidcTrustEntry {
    OidcTrustEntry {
        name: name.to_string(),
        issuer: "https://issuer.example".to_string(),
        audience: Some("talon".to_string()),
        audiences: Vec::new(),
        allowed_domains: Vec::new(),
        allowed_emails: Vec::new(),
        jwks_url: None,
        clock_skew_seconds: None,
        grants,
    }
}

#[test]
fn trust_grants_need_enclosing_selectors() {
    assert!(validate_oidc_trust_grant("ci", &grant("", "", "", "")).is_ok());
    assert!(validate_oidc_trust_grant("ci", &grant("acme", "a", "s", "")).is_ok());
    assert!(validate_oidc_trust_grant("ci", &grant("acme", "", "", "ops")).is_ok());
    let err = validate_oidc_trust_grant("ci", &grant(" ", "a", "", "")).unwrap_err();
    assert_eq!(err.problem, TrustProblem::AgentWithoutNamespace);
    assert_eq!(
        err.message(),
        "trust.oidc entry 'ci' grant with agent selector must include namespace"
    );
    let err = validate_oidc_trust_grant("ci", &grant("acme", "", "s", "")).unwrap_err();
    assert_eq!(err.problem, TrustProblem::SessionWithoutNamespaceAndAgent);
    let err = validate_oidc_trust_grant("ci", &grant("", "", "", "ops")).unwrap_err();
    assert_eq!(err.problem, TrustProblem::ChannelWithoutNamespace);
    let err = validate_oidc_trust_grant("ci", &grant("acme", "a", "", "ops")).unwrap_err();
    assert_eq!(err.problem, TrustProblem::ChannelWithAgentOrSession);
    assert_eq!(
        err.message(),
        "trust.oidc entry 'ci' grant cannot combine channel with agent or session selectors"
    );
}

#[test]
fn trust_entries_are_checked_in_order() {
    assert!(validate_trust_config(&None).is_ok());
    let ok = TrustConfig { oidc: vec![entry("ci", vec![grant("acme", "", "", "")])] };
    assert!(validate_trust_config(&Some(ok)).is_ok());

    let mut unnamed = entry(" ", vec![grant("", "", "", "")]);
    unnamed.issuer = String::new();
    let err = validate_trust_config(&Some(TrustConfig { oidc: vec![unnamed] })).unwrap_err();
    assert_eq!(err.problem, TrustProblem::EmptyName);
    assert_eq!(err.message(), "trust.oidc entry name cannot be empty");

    let mut no_issuer = entry("ci", vec![grant("", "", "", "")]);
    no_issuer.issuer = "  ".to_string();
    let err = validate_trust_config(&Some(TrustConfig { oidc: vec![no_issuer] })).unwrap_err();
    assert_eq!(err.message(), "trust.oidc entry 'ci' issuer cannot be empty");

    let mut no_audience = entry("ci", vec![grant("", "", "", "")]);
    no_audience.audience = None;
    no_audience.audiences = vec![" ".to_string()];
    let err = validate_trust_config(&Some(TrustConfig { oidc: vec![no_audience.clone()] })).unwrap_err();
    assert_eq!(err.message(), "trust.oidc entry 'ci' must declare at least one audience");
    no_audience.audiences.push("talon".to_string());
    assert!(validate_trust_config(&Some(TrustConfig { oidc: vec![no_audience] })).is_ok());

    let err = validate_trust_config(&Some(TrustConfig { oidc: vec![entry("ci", Vec::new())] })).unwrap_err();
    assert_eq!(err.message(), "trust.oidc entry 'ci' must declare at least one grant");

    let config = TrustConfig {
        oidc: vec![
            entry("first", vec![grant("acme", "", "", "")]),
            entry("second", vec![grant("acme", "", "", ""), grant("", "a", "", "")]),
        ],
    };
    let err = validate_trust_config(&Some(config)).unwrap_err();
    assert_eq!(err.entry, "second");
    assert_eq!(err.problem, TrustProblem::AgentWithoutNamespace);
}

#[test]
fn openai_providers_need_a_known_api() {
    let provider = |name: &str, kind, api: Option<&str>| ProviderSettings {
        name: name.to_string(),
        kind,
        api: api.map(|a| a.to_string()),
    };
    assert!(validate_provider_config(&vec![
        provider("a", ProviderKind::Openai, None),
        provider("b", ProviderKind::Openai, Some(" responses ")),
        provider("c", ProviderKind::Openai, Some("chat_completions")),
        provider("d", ProviderKind::Anthropic, Some("whatever")),
        provider("e", ProviderKind::Openai, Some("  ")),
    ])
    .is_ok());
    let err = validate_provider_config(&vec![
        provider("a", ProviderKind::Openai, Some("responses")),
        provider("b", ProviderKind::Openai, Some(" legacy ")),
    ])
    .unwrap_err();
    assert_eq!(err.name, "b");
    assert_eq!(err.api, "legacy");
    assert_eq!(
        err.message(),
        "provider 'b' has invalid api 'legacy'; expected 'responses' or 'chat_completions'"
    );
}

#[test]
fn env_placeholders_expand_set_names_only() {
    let env = vec![
        ("TALON_HOST".to_string(), "db.internal".to_string()),
        ("PORT".to_string(), "5432".to_string()),
    ];
    assert_eq!(
        expand_env_placeholders("postgres://${TALON_HOST}:${PORT}/talon", &env),
        "postgres://db.internal:5432/talon"
    );
    assert_eq!(expand_env_placeholders("${MISSING} ok", &env), "${MISSING} ok");
    assert_eq!(expand_env_placeholders("${bad-name}", &env), "${bad-name}");
    assert_eq!(expand_env_placeholders("${}", &env), "${}");
    assert_eq!(expand_env_placeholders("tail ${PORT", &env), "tail ${PORT");
    assert_eq!(expand_env_placeholders("no placeholders", &env), "no placeholders");
    assert_eq!(expand_env_placeholders("$${PORT}}", &env), "$5432}");
}
