use api::bootstrap::{Action, Bootstrap, Config, Event, Phase, StartupError, LISTEN_PORT};

#[test]
fn successful_startup_reaches_listening() {
    let mut boot = Bootstrap::new();
    assert_eq!(boot.pending_action(), Action::ReadConfig);
    let action = boot.advance(Event::ConfigRead {
        relational: Some("mysql://localhost:3306/app".to_string()),
        document: Some("mongodb://localhost:27017".to_string()),
    });
    assert_eq!(action, Action::ConnectRelational);
    let action = boot.advance(Event::RelationalConnect { connected: true });
    assert_eq!(action, Action::ParseDocumentUrl);
    let action = boot.advance(Event::DocumentParse { parsed: true });
    assert_eq!(action, Action::BuildDocumentClient);
    let action = boot.advance(Event::DocumentClientBuild { built: true });
    assert_eq!(action, Action::ProbeDocument);
    let action = boot.advance(Event::DocumentProbe { reachable: true });
    assert_eq!(action, Action::RegisterRoutes);
    let action = boot.advance(Event::RoutesBuilt);
    assert_eq!(action, Action::BindListener);
    let action = boot.advance(Event::Bind { bound: true });
    assert_eq!(action, Action::Serve);
    assert_eq!(boot.phase, Phase::Listening);
}

#[test]
fn listening_port_is_fixed() {
    assert_eq!(LISTEN_PORT, 8080);
}

#[test]
fn missing_relational_url_aborts_before_any_connection() {
    let mut boot = Bootstrap::new();
    let action = boot.advance(Event::ConfigRead {
        relational: None,
        document: Some("mongodb://localhost:27017".to_string()),
    });
    assert_eq!(action, Action::Abort(StartupError::MissingRelationalUrl));
    assert_eq!(
        StartupError::MissingRelationalUrl.message(),
        "DATABASE_URL_MARIA must be set"
    );
}

#[test]
fn missing_document_url_aborts_before_any_connection() {
    let mut boot = Bootstrap::new();
    let action = boot.advance(Event::ConfigRead {
        relational: Some("mysql://localhost:3306/app".to_string()),
        document: None,
    });
    assert_eq!(action, Action::Abort(StartupError::MissingDocumentUrl));
    assert_eq!(
        StartupError::MissingDocumentUrl.message(),
        "DATABASE_URL_MONGO must be set"
    );
}

#[test]
fn both_urls_missing_reports_relational_first() {
    let mut boot = Bootstrap::new();
    let action = boot.advance(Event::ConfigRead {
        relational: None,
        document: None,
    });
    assert_eq!(action, Action::Abort(StartupError::MissingRelationalUrl));
}

#[test]
fn relational_failure_terminates_before_document_steps() {
    let mut boot = Bootstrap::new();
    boot.advance(Event::ConfigRead {
        relational: Some("mysql://unreachable.invalid:3306/app".to_string()),
        document: Some("mongodb://localhost:27017".to_string()),
    });
    let action = boot.advance(Event::RelationalConnect { connected: false });
    assert_eq!(action, Action::Abort(StartupError::RelationalConnectFailed));
    // A terminated machine ignores every later event: the document store is
    // never asked for.
    let action = boot.advance(Event::DocumentParse { parsed: true });
    assert_eq!(action, Action::Abort(StartupError::RelationalConnectFailed));
    assert_eq!(
        boot.phase,
        Phase::Terminated(StartupError::RelationalConnectFailed)
    );
}

#[test]
fn document_parse_failure_terminates() {
    let mut boot = Bootstrap::new();
    boot.advance(Event::ConfigRead {
        relational: Some("mysql://localhost:3306/app".to_string()),
        document: Some("not a url".to_string()),
    });
    boot.advance(Event::RelationalConnect { connected: true });
    let action = boot.advance(Event::DocumentParse { parsed: false });
    assert_eq!(action, Action::Abort(StartupError::DocumentParseFailed));
    assert_eq!(
        StartupError::DocumentParseFailed.message(),
        "MongoDB parse failed"
    );
}

#[test]
fn document_client_failure_terminates() {
    let mut boot = Bootstrap::new();
    boot.advance(Event::ConfigRead {
        relational: Some("mysql://localhost:3306/app".to_string()),
        document: Some("mongodb://localhost:27017".to_string()),
    });
    boot.advance(Event::RelationalConnect { connected: true });
    boot.advance(Event::DocumentParse { parsed: true });
    let action = boot.advance(Event::DocumentClientBuild { built: false });
    assert_eq!(action, Action::Abort(StartupError::DocumentClientFailed));
    assert_eq!(
        StartupError::DocumentClientFailed.message(),
        "MongoDB client creation failed"
    );
}

#[test]
fn document_probe_failure_terminates() {
    let mut boot = Bootstrap::new();
    boot.advance(Event::ConfigRead {
        relational: Some("mysql://localhost:3306/app".to_string()),
        document: Some("mongodb://unreachable.invalid:27017".to_string()),
    });
    boot.advance(Event::RelationalConnect { connected: true });
    boot.advance(Event::DocumentParse { parsed: true });
    boot.advance(Event::DocumentClientBuild { built: true });
    let action = boot.advance(Event::DocumentProbe { reachable: false });
    assert_eq!(action, Action::Abort(StartupError::DocumentProbeFailed));
    assert_eq!(
        StartupError::DocumentProbeFailed.message(),
        "MongoDB connection failed (ping)"
    );
}

#[test]
fn bind_failure_terminates() {
    let mut boot = Bootstrap::new();
    boot.advance(Event::ConfigRead {
        relational: Some("mysql://localhost:3306/app".to_string()),
        document: Some("mongodb://localhost:27017".to_string()),
    });
    boot.advance(Event::RelationalConnect { connected: true });
    boot.advance(Event::DocumentParse { parsed: true });
    boot.advance(Event::DocumentClientBuild { built: true });
    boot.advance(Event::DocumentProbe { reachable: true });
    boot.advance(Event::RoutesBuilt);
    let action = boot.advance(Event::Bind { bound: false });
    assert_eq!(action, Action::Abort(StartupError::BindFailed));
    assert_eq!(StartupError::BindFailed.message(), "listener bind failed");
}

#[test]
fn relational_failure_message() {
    assert_eq!(
        StartupError::RelationalConnectFailed.message(),
        "MariaDB connection failed"
    );
}

#[test]
fn unexpected_event_is_ignored() {
    let mut boot = Bootstrap::new();
    // The machine waits for the configuration; a bind outcome does not
    // answer that and leaves it where it was.
    let action = boot.advance(Event::Bind { bound: true });
    assert_eq!(action, Action::ReadConfig);
    assert_eq!(boot.phase, Phase::Start);
}

#[test]
fn milestones_announce_connections_and_listening() {
    assert_eq!(
        Phase::RelationalConnected.milestone(),
        Some("MariaDB Connected!".to_string())
    );
    assert_eq!(
        Phase::DocumentConnected.milestone(),
        Some("MongoDB Connected!".to_string())
    );
    assert_eq!(
        Phase::Listening.milestone(),
        Some("listening on port 8080".to_string())
    );
    assert_eq!(Phase::Start.milestone(), None);
    assert_eq!(Phase::ConfigLoaded.milestone(), None);
    assert_eq!(Phase::DocumentParsed.milestone(), None);
}

#[test]
fn config_from_both_values() {
    let config = Config::from_env_values(
        Some("mysql://localhost:3306/app".to_string()),
        Some("mongodb://localhost:27017".to_string()),
    );
    let config = config.expect("both values were present");
    assert_eq!(config.relational_url, "mysql://localhost:3306/app");
    assert_eq!(config.document_url, "mongodb://localhost:27017");
}

#[test]
fn config_missing_relational_value() {
    let config = Config::from_env_values(None, Some("mongodb://localhost:27017".to_string()));
    assert!(matches!(config, Err(StartupError::MissingRelationalUrl)));
}

#[test]
fn config_missing_document_value() {
    let config = Config::from_env_values(Some("mysql://localhost:3306/app".to_string()), None);
    assert!(matches!(config, Err(StartupError::MissingDocumentUrl)));
}

#[test]
fn config_missing_both_values_reports_relational_first() {
    let config = Config::from_env_values(None, None);
    assert!(matches!(config, Err(StartupError::MissingRelationalUrl)));
}
