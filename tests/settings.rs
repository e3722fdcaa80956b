use autoendpoint_settings::banner::banner_with_scheme;
use autoendpoint_settings::resolve::{ConfigurationError, FileLayer};
use autoendpoint_settings::settings::{Field, Settings};

fn pairs(items: &[(&str, &str)]) -> Vec<(String, String)> {
    items.iter().map(|(k, v)| (k.to_string(), v.to_string())).collect()
}

fn resolve(file: &[(&str, &str)], env: &[(&str, &str)]) -> Result<Settings, ConfigurationError> {
    Settings::with_env_and_config_file(&FileLayer::Loaded(pairs(file)), &pairs(env))
}

fn validation_field(r: Result<Settings, ConfigurationError>) -> Field {
    match r {
        Err(ConfigurationError::ValidationError { field, .. }) => field,
        other => panic!("expected a validation error, got {:?}", other),
    }
}

#[test]
fn defaults_without_any_input() {
    let s = Settings::with_env_and_config_file(&FileLayer::Absent, &Vec::new()).unwrap();
    assert!(!s.debug);
    assert_eq!(s.port, 8000);
    assert_eq!(s.host, "127.0.0.1");
    assert_eq!(s.database_url, "mysql://root@127.0.0.1/autopush");
    assert_eq!(s.database_pool_max_size, None);
    assert!(!s.database_use_test_transactions);
    assert!(!s.human_logs);
    assert_eq!(s.statsd_host, None);
    assert_eq!(s.statsd_port, 8125);
    assert_eq!(s.statsd_label, "autoendpoint");
}

#[test]
fn default_impl_matches_resolution() {
    let d = Settings::default();
    assert_eq!(d.port, 8000);
    assert_eq!(d.statsd_port, 8125);
    assert_eq!(d.host, "127.0.0.1");
    assert_eq!(d.statsd_label, "autoendpoint");
}

#[test]
fn file_value_is_used() {
    let s = resolve(&[("port", "9000"), ("host", "0.0.0.0"), ("debug", "true")], &[]).unwrap();
    assert_eq!(s.port, 9000);
    assert_eq!(s.host, "0.0.0.0");
    assert!(s.debug);
    assert_eq!(s.statsd_port, 8125);
}

#[test]
fn env_value_is_used() {
    let s = resolve(&[], &[("AUTOEND__PORT", "9001"), ("AUTOEND__STATSD_HOST", "metrics")]).unwrap();
    assert_eq!(s.port, 9001);
    assert_eq!(s.statsd_host, Some("metrics".to_string()));
}

#[test]
fn env_wins_over_file() {
    let s = resolve(
        &[("database_url", "mysql://file/db"), ("port", "9000")],
        &[("AUTOEND__DATABASE_URL", "postgres://env/db")],
    )
    .unwrap();
    assert_eq!(s.database_url, "postgres://env/db");
    assert_eq!(s.port, 9000);
}

#[test]
fn later_file_entry_wins() {
    let s = resolve(&[("statsd_label", "first"), ("statsd_label", "second")], &[]).unwrap();
    assert_eq!(s.statsd_label, "second");
}

#[test]
fn env_name_is_case_insensitive() {
    let a = resolve(&[], &[("autoend__port", "7000")]).unwrap();
    let b = resolve(&[], &[("AutoEnd__Port", "7000")]).unwrap();
    let c = resolve(&[], &[("AUTOEND__PORT", "7000")]).unwrap();
    assert_eq!(a.port, 7000);
    assert_eq!(b.port, 7000);
    assert_eq!(c.port, 7000);
}

#[test]
fn env_without_prefix_is_ignored() {
    let s = resolve(&[], &[("PORT", "7000"), ("OTHER_PORT", "7001"), ("AUTOEND_PORT", "7002")]).unwrap();
    assert_eq!(s.port, 8000);
}

#[test]
fn flags_accept_engine_words() {
    let s = resolve(&[("human_logs", "YES")], &[("AUTOEND__DEBUG", "on")]).unwrap();
    assert!(s.debug);
    assert!(s.human_logs);
    let t = resolve(&[], &[("AUTOEND__DEBUG", "0")]).unwrap();
    assert!(!t.debug);
}

#[test]
fn pool_size_is_optional_count() {
    let s = resolve(&[("database_pool_max_size", "12")], &[]).unwrap();
    assert_eq!(s.database_pool_max_size, Some(12));
    let f = validation_field(resolve(&[("database_pool_max_size", "-1")], &[]));
    assert_eq!(f, Field::DatabasePoolMaxSize);
}

#[test]
fn banner_invalid_db() {
    let mut s = Settings::default();
    s.database_url = String::new();
    assert!(s.banner().ends_with("(<invalid db>)"));
}

#[test]
fn banner_mysql_scheme() {
    let mut s = Settings::default();
    s.database_url = "mysql://root@127.0.0.1/autopush".to_string();
    assert!(s.banner().ends_with("(mysql)"));
    assert_eq!(s.banner(), "http://127.0.0.1:8000 (mysql)");
}

#[test]
fn banner_formats_port_digits() {
    assert_eq!(banner_with_scheme("h", 0, &None), "http://h:0 (<invalid db>)");
    assert_eq!(banner_with_scheme("h", 65535, &Some("pg".to_string())), "http://h:65535 (pg)");
    assert_eq!(banner_with_scheme("h", 10, &Some("x".to_string())), "http://h:10 (x)");
}

#[test]
fn missing_file_is_source_error() {
    let file = FileLayer::Failed { path: "/no/such/file.toml".to_string(), cause: "not found".to_string() };
    let r = Settings::with_env_and_config_file(&file, &pairs(&[("AUTOEND__PORT", "abc")]));
    match r {
        Err(ConfigurationError::SourceError { path, cause }) => {
            assert_eq!(path, "/no/such/file.toml");
            assert_eq!(cause, "not found");
        }
        other => panic!("expected a source error, got {:?}", other),
    }
}

#[test]
fn non_numeric_port_is_validation_error() {
    let r = resolve(&[], &[("AUTOEND__PORT", "abc")]);
    assert!(r.is_err());
    assert_eq!(validation_field(r), Field::Port);
}

#[test]
fn out_of_range_port_is_validation_error() {
    assert_eq!(validation_field(resolve(&[("statsd_port", "70000")], &[])), Field::StatsdPort);
}

#[test]
fn bad_flag_is_validation_error() {
    assert_eq!(validation_field(resolve(&[], &[("AUTOEND__HUMAN_LOGS", "maybe")])), Field::HumanLogs);
}

#[test]
fn resolution_is_repeatable() {
    let file = [("host", "example.org"), ("statsd_port", "9125")];
    let env = [("AUTOEND__DEBUG", "true"), ("AUTOEND__DATABASE_POOL_MAX_SIZE", "4")];
    let a = resolve(&file, &env).unwrap();
    let b = resolve(&file, &env).unwrap();
    assert_eq!(a.debug, b.debug);
    assert_eq!(a.port, b.port);
    assert_eq!(a.host, b.host);
    assert_eq!(a.database_url, b.database_url);
    assert_eq!(a.database_pool_max_size, b.database_pool_max_size);
    assert_eq!(a.database_use_test_transactions, b.database_use_test_transactions);
    assert_eq!(a.human_logs, b.human_logs);
    assert_eq!(a.statsd_host, b.statsd_host);
    assert_eq!(a.statsd_port, b.statsd_port);
    assert_eq!(a.statsd_label, b.statsd_label);
}

#[test]
fn validation_report_names_field_and_variable() {
    let e = ConfigurationError::ValidationError { field: Field::Port, message: "expected an integer from 0 to 65535".to_string() };
    assert_eq!(
        e.report(),
        "Bad configuration: `port` expected an integer from 0 to 65535. Please set it in the config file or use the environment variable `AUTOEND__PORT`"
    );
    assert_eq!(Field::DatabaseUrl.env_var(), "AUTOEND__DATABASE_URL");
    assert_eq!(Field::DatabaseUrl.name(), "database_url");
}

#[test]
fn other_report_keeps_message() {
    let e = ConfigurationError::OtherError { message: "frozen".to_string() };
    assert_eq!(e.report(), "Configuration error: frozen");
}
