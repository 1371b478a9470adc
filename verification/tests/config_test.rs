use axum_apcore::config::{parse_bool, ApcoreSettings};

fn vars(items: &[(&str, &str)]) -> Vec<(String, String)> {
    items.iter().map(|(k, v)| (k.to_string(), v.to_string())).collect()
}

#[test]
fn test_default_settings() {
    let s = ApcoreSettings::default();
    assert!(s.auto_discover);
    assert_eq!(s.serve_port, 9090);
    assert_eq!(s.serve_transport, "streamable-http");
    assert_eq!(s.scanner_source, "native");
}

#[test]
fn test_validate_valid() {
    let s = ApcoreSettings::default();
    assert!(s.validate().is_ok());
}

#[test]
fn test_validate_invalid_transport() {
    let s = ApcoreSettings {
        serve_transport: "invalid".into(),
        ..ApcoreSettings::default()
    };
    let err = s.validate().unwrap_err();
    assert!(err[0].contains("APCORE_SERVE_TRANSPORT"));
}

#[test]
fn test_validate_invalid_scanner() {
    let s = ApcoreSettings {
        scanner_source: "bad".into(),
        ..ApcoreSettings::default()
    };
    let err = s.validate().unwrap_err();
    assert!(err[0].contains("APCORE_SCANNER_SOURCE"));
}

#[test]
fn test_parse_bool() {
    assert!(parse_bool("true"));
    assert!(parse_bool("1"));
    assert!(parse_bool("yes"));
    assert!(parse_bool("on"));
    assert!(parse_bool("TRUE"));
    assert!(!parse_bool("false"));
    assert!(!parse_bool("0"));
    assert!(!parse_bool(""));
}

#[test]
fn test_settings_validation_catches_invalid() {
    let settings = ApcoreSettings {
        serve_transport: "grpc".into(),
        scanner_source: "magic".into(),
        serve_port: 0,
        ..ApcoreSettings::default()
    };
    let errors = settings.validate().unwrap_err();
    assert_eq!(errors.len(), 3);
}

#[test]
fn validation_messages_are_exact() {
    let settings = ApcoreSettings {
        serve_transport: "grpc".into(),
        scanner_source: "magic".into(),
        serve_port: 0,
        ..ApcoreSettings::default()
    };
    let errors = settings.validate().unwrap_err();
    assert_eq!(
        errors[0],
        "Invalid APCORE_SERVE_TRANSPORT: 'grpc'. Must be one of: stdio, streamable-http, sse"
    );
    assert_eq!(
        errors[1],
        "Invalid APCORE_SCANNER_SOURCE: 'magic'. Must be one of: native, openapi"
    );
    assert_eq!(errors[2], "APCORE_SERVE_PORT must be > 0");
}

#[test]
fn empty_environment_gives_defaults() {
    let s = ApcoreSettings::from_env(&vars(&[("PATH", "/bin"), ("HOME", "/root")]));
    let d = ApcoreSettings::default();
    assert_eq!(s.module_dir, d.module_dir);
    assert_eq!(s.auto_discover, d.auto_discover);
    assert_eq!(s.binding_pattern, d.binding_pattern);
    assert!(s.module_packages.is_empty());
    assert_eq!(s.serve_transport, d.serve_transport);
    assert_eq!(s.serve_host, d.serve_host);
    assert_eq!(s.serve_port, d.serve_port);
    assert_eq!(s.server_name, d.server_name);
    assert_eq!(s.explorer_prefix, "/explorer");
    assert!(s.explorer_enabled);
    assert!(s.jwt_secret.is_none());
    assert_eq!(s.jwt_algorithm, "HS256");
    assert!(s.acl_path.is_none());
    assert!(!s.tracing && !s.metrics && !s.observability_logging && !s.embedded_server);
    assert_eq!(s.task_max_concurrent, 10);
    assert_eq!(s.task_max_tasks, 100);
    assert_eq!(s.task_cleanup_age, 3600);
    assert!(!s.hot_reload);
    assert!(s.output_formatter.is_none());
    assert!(s.validate().is_ok());
}

#[test]
fn environment_overrides_each_setting() {
    let s = ApcoreSettings::from_env(&vars(&[
        ("APCORE_MODULE_DIR", "mods"),
        ("APCORE_AUTO_DISCOVER", "off"),
        ("APCORE_MODULE_PACKAGES", " a , b,,c "),
        ("APCORE_SERVE_PORT", "8081"),
        ("APCORE_SERVE_TRANSPORT", "sse"),
        ("APCORE_JWT_SECRET", "SECRET-REDACTED"),
        ("APCORE_TRACING", "Yes"),
        ("APCORE_TASK_MAX_TASKS", "+7"),
        ("APCORE_TASK_CLEANUP_AGE", "60"),
        ("APCORE_SCANNER_SOURCE", "openapi"),
        ("APCORE_OUTPUT_FORMATTER", "pkg.fmt"),
        ("APCORE_MODULE_DIR", "second"),
    ]));
    assert_eq!(s.module_dir, "mods");
    assert!(!s.auto_discover);
    assert_eq!(s.module_packages, vec!["a", "b", "", "c"]);
    assert_eq!(s.serve_port, 8081);
    assert_eq!(s.serve_transport, "sse");
    assert_eq!(s.jwt_secret.as_deref(), Some("SECRET-REDACTED"));
    assert!(s.tracing);
    assert_eq!(s.task_max_tasks, 7);
    assert_eq!(s.task_cleanup_age, 60);
    assert_eq!(s.scanner_source, "openapi");
    assert_eq!(s.output_formatter.as_deref(), Some("pkg.fmt"));
}

#[test]
fn numbers_that_do_not_fit_keep_the_default() {
    let s = ApcoreSettings::from_env(&vars(&[
        ("APCORE_SERVE_PORT", "70000"),
        ("APCORE_TASK_MAX_CONCURRENT", "ten"),
        ("APCORE_TASK_CLEANUP_AGE", "-5"),
    ]));
    assert_eq!(s.serve_port, 9090);
    assert_eq!(s.task_max_concurrent, 10);
    assert_eq!(s.task_cleanup_age, 3600);
}
