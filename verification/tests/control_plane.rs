use talon_control::control_plane::{
    configured_scheduler, configured_scheduler_callback_auth, database_driver,
    local_scheduler_runner, local_socket_default_root, message_broker_driver,
    rocksdb_data_dir_path, rocksdb_path_from_url, scheduler_choice, sqlite_database_location,
    BrokerDriver, CallbackAuth, CloudTasksConfig, ControlPlaneError, DatabaseDriver,
    SchedulerChoice, SchedulerConfig, SchedulerEnv,
};

fn env(driver: Option<&str>) -> SchedulerEnv {
    SchedulerEnv {
        driver: driver.map(str::to_string),
        project_id: None,
        location: None,
        queue: None,
        target_url: None,
        auth_token: None,
        audience: None,
        service_account_email: None,
    }
}

#[test]
fn scheduler_callback_auth_prefers_shared_secret_over_oidc() {
    let auth = configured_scheduler_callback_auth(Some("secret-token"), Some("https://example.com"), None)
        .expect("expected auth config");
    match auth {
        CallbackAuth::SharedSecret { token } => assert_eq!(token, "secret-token"),
        other => panic!("expected shared secret auth, got {other:?}"),
    }
}

#[test]
fn configured_scheduler_reads_cloud_tasks_from_env() {
    let e = SchedulerEnv {
        driver: Some("cloud_tasks".to_string()),
        project_id: Some("talon-project".to_string()),
        location: Some("us-central1".to_string()),
        queue: Some("talon-queue".to_string()),
        target_url: Some("https://worker.example/fire".to_string()),
        auth_token: None,
        audience: Some("https://worker.example/fire".to_string()),
        service_account_email: Some("scheduler@example.com".to_string()),
    };
    let scheduler = configured_scheduler(None, &e).expect("expected scheduler config");
    let cfg = scheduler.cloud_tasks.expect("expected backend");
    assert_eq!(cfg.project_id, "talon-project");
    assert_eq!(cfg.location, "us-central1");
    assert_eq!(cfg.queue, "talon-queue");
    assert_eq!(cfg.target_url, "https://worker.example/fire");
    match cfg.callback_auth {
        Some(CallbackAuth::GoogleOidc { audience, service_account_email }) => {
            assert_eq!(audience, "https://worker.example/fire");
            assert_eq!(service_account_email, "scheduler@example.com");
        }
        other => panic!("expected google oidc auth, got {other:?}"),
    }
}

#[test]
fn configured_scheduler_prefers_explicit_config() {
    let explicit = SchedulerConfig {
        cloud_tasks: Some(CloudTasksConfig {
            project_id: "configured-project".to_string(),
            location: "configured-location".to_string(),
            queue: "configured-queue".to_string(),
            target_url: "https://configured.example/fire".to_string(),
            callback_auth: None,
        }),
    };
    let scheduler = configured_scheduler(Some(&explicit), &env(Some("cloud_tasks"))).expect("expected scheduler config");
    let cfg = scheduler.cloud_tasks.expect("expected backend");
    assert_eq!(cfg.project_id, "configured-project");
    assert_eq!(cfg.location, "configured-location");
    assert_eq!(cfg.queue, "configured-queue");
    assert_eq!(cfg.target_url, "https://configured.example/fire");
    assert!(cfg.callback_auth.is_none());
}

#[test]
fn configured_scheduler_rejects_unknown_driver() {
    assert!(configured_scheduler(None, &env(Some("unknown"))).is_none());
}

#[test]
fn configured_scheduler_returns_none_for_missing_or_blank_driver() {
    assert!(configured_scheduler(None, &env(None)).is_none());
    assert!(configured_scheduler(None, &env(Some("   "))).is_none());
}

#[test]
fn configured_scheduler_callback_auth_returns_none_for_blank_inputs_and_empty_email_default() {
    assert!(configured_scheduler_callback_auth(Some("   "), None, None).is_none());
    let auth = configured_scheduler_callback_auth(Some("   "), Some("https://worker.example/fire"), None)
        .expect("expected oidc auth");
    match auth {
        CallbackAuth::GoogleOidc { audience, service_account_email } => {
            assert_eq!(audience, "https://worker.example/fire");
            assert!(service_account_email.is_empty());
        }
        other => panic!("expected google oidc auth, got {other:?}"),
    }
}

#[test]
fn configured_scheduler_falls_back_from_empty_explicit_config_to_env() {
    let e = SchedulerEnv {
        driver: Some("cloud_tasks".to_string()),
        project_id: Some("env-project".to_string()),
        location: Some("env-location".to_string()),
        queue: Some("env-queue".to_string()),
        target_url: Some("https://env.example/fire".to_string()),
        auth_token: Some("env-secret".to_string()),
        audience: None,
        service_account_email: None,
    };
    let scheduler = configured_scheduler(Some(&SchedulerConfig { cloud_tasks: None }), &e)
        .expect("expected env-backed scheduler config");
    let cfg = scheduler.cloud_tasks.expect("expected backend");
    assert_eq!(cfg.project_id, "env-project");
    assert_eq!(cfg.location, "env-location");
    assert_eq!(cfg.queue, "env-queue");
    assert_eq!(cfg.target_url, "https://env.example/fire");
    match cfg.callback_auth {
        Some(CallbackAuth::SharedSecret { token }) => assert_eq!(token, "env-secret"),
        other => panic!("expected shared secret auth, got {other:?}"),
    }
}

#[test]
fn build_control_plane_requires_message_broker_config() {
    let err = message_broker_driver(None).unwrap_err();
    assert!(err.message().contains("control_plane.message_broker configuration is missing"));
}

#[test]
fn build_control_plane_rejects_unsupported_database_driver_and_missing_url() {
    let err = database_driver("badger", false, true).unwrap_err();
    assert!(err.message().contains("Unsupported database driver: badger"));
    let err = database_driver("postgres", false, true).unwrap_err();
    assert!(err.message().contains("Database URL secret is missing"));
    let err = message_broker_driver(Some("kafka")).unwrap_err();
    assert!(err.message().contains("Unsupported message broker driver: kafka"));
    assert!(message_broker_driver(Some("local_socket")).is_ok());
}

#[test]
fn sqlite_database_url_uses_data_dir_or_explicit_url() {
    let path = sqlite_database_location(false, "/tmp/talon-data").unwrap().unwrap();
    assert!(path.ends_with("/talon-control-plane.db"));
    assert_eq!(path, "/tmp/talon-data/talon-control-plane.db");
    assert!(sqlite_database_location(true, "").unwrap().is_none());
}

#[test]
fn sqlite_database_url_requires_path_or_url() {
    let err = sqlite_database_location(false, "   ").unwrap_err();
    assert!(err
        .message()
        .contains("SQLite database requires either control_plane.database.url or control_plane.database.data_dir"));
}

#[test]
fn rocksdb_database_path_uses_data_dir_or_explicit_url() {
    let path = rocksdb_data_dir_path("/tmp/talon-data").unwrap();
    assert!(path.ends_with("talon-control-plane.rocksdb"));
    assert_eq!(rocksdb_path_from_url("rocksdb:///tmp/explicit.rocksdb").unwrap(), "/tmp/explicit.rocksdb");
}

#[test]
fn rocksdb_database_path_requires_path_or_url() {
    let err = rocksdb_data_dir_path("   ").unwrap_err();
    assert!(err
        .message()
        .contains("RocksDB database requires either control_plane.database.url or control_plane.database.data_dir"));
    assert!(matches!(rocksdb_path_from_url("rocksdb://  "), Err(ControlPlaneError::RocksDbUrlEmpty)));
    assert_eq!(rocksdb_path_from_url("/data/db").unwrap(), "/data/db");
}

#[test]
fn drivers_select_backends() {
    assert_eq!(database_driver("sqlite", false, true).unwrap(), DatabaseDriver::Sqlite);
    assert_eq!(database_driver("d1", false, false).unwrap(), DatabaseDriver::D1);
    assert_eq!(database_driver("postgres", true, false).unwrap(), DatabaseDriver::Postgres);
    assert!(matches!(database_driver("rocksdb", false, false), Err(ControlPlaneError::RocksDbNotEnabled)));
    assert_eq!(database_driver("rocksdb", false, true).unwrap(), DatabaseDriver::RocksDb);
    assert_eq!(message_broker_driver(Some("cf-queues")).unwrap(), BrokerDriver::CfQueues);
    assert_eq!(local_socket_default_root("sqlite", " /var/talon "), Some("/var/talon".to_string()));
    assert_eq!(local_socket_default_root("postgres", "/var/talon"), None);
    assert_eq!(sqlite_database_location(false, "data/").unwrap(), Some("data/talon-control-plane.db".to_string()));
}

#[test]
fn scheduler_drivers_choose_a_backend() {
    assert!(matches!(
        scheduler_choice(Some("local_postgres"), Some("postgres://db")),
        SchedulerChoice::LocalPostgres { database_url } if database_url == "postgres://db"
    ));
    assert!(matches!(scheduler_choice(Some("local_sqlite"), None), SchedulerChoice::Noop));
    assert!(matches!(scheduler_choice(Some("cf-alarms"), None), SchedulerChoice::CfAlarms));
    assert!(matches!(scheduler_choice(Some("cloud_tasks"), None), SchedulerChoice::Configured));
    assert!(matches!(scheduler_choice(None, None), SchedulerChoice::Configured));
    assert!(local_scheduler_runner(Some("1")));
    assert!(local_scheduler_runner(Some("TRUE")));
    assert!(!local_scheduler_runner(Some("yes")));
    assert!(!local_scheduler_runner(None));
}
