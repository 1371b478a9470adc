use axum_apcore::cli::{check_export_format, padded, parse_tags, scan_output, serve_target, task_row, yaml_output_dir, ScanOutput};
use axum_apcore::config::ApcoreSettings;
use axum_apcore::engine::extensions::AxumModuleValidator;
use axum_apcore::errors::AxumApcoreError;
use axum_apcore::json::{get, to_serde, JsonValue};
use axum_apcore::scanner::native::extract_tag_from_path;
use axum_apcore::scanner::openapi::strip_method_suffix;
use axum_apcore::text::{decimal_string, parse_u64_at_most};

#[test]
fn valid_ids_have_no_problems_and_others_do() {
    let v = AxumModuleValidator::new();
    for id in ["a", "users.get_user.get", "x.y.z", "__init__.x"] {
        assert!(v.validate(id).is_empty(), "{id}");
    }
    for id in ["", ".", "a.", ".a", "apcore", "__main__", "system", "__init__"] {
        assert!(!v.validate(id).is_empty(), "{id}");
    }
    assert_eq!(v.validate("").len(), 1);
}

#[test]
fn path_tag_is_a_segment_or_default() {
    for path in ["/api/users/:id", "/v2/x", "/:id/a", "///", "/api/api/v1", "plain"] {
        let tag = extract_tag_from_path(path);
        assert!(tag == "default" || path.split('/').any(|s| s == tag), "{path}");
    }
    assert_eq!(extract_tag_from_path("/:id/a"), "a");
    assert_eq!(extract_tag_from_path("/api/api/v1"), "default");
    assert_eq!(extract_tag_from_path("plain"), "plain");
}

#[test]
fn stripping_undoes_appending_the_method() {
    for (base, method) in [("get_user", "GET"), ("", "post"), ("a_b_c", "Delete"), ("x_put", "put")] {
        let id = format!("{base}_{}", method.to_lowercase());
        assert_eq!(strip_method_suffix(&id, method), base);
    }
}

#[test]
fn decimal_text_reads_back() {
    for n in [0u64, 7, 10, 99, 100, 65535, 1_000_000_007, u64::MAX] {
        let s = decimal_string(n);
        assert_eq!(s, n.to_string());
        assert_eq!(parse_u64_at_most(&s, u64::MAX), Some(n));
    }
    assert_eq!(parse_u64_at_most("18446744073709551616", u64::MAX), None);
    assert_eq!(parse_u64_at_most("", 10), None);
    assert_eq!(parse_u64_at_most("+", 10), None);
    assert_eq!(parse_u64_at_most("11", 10), None);
    assert_eq!(parse_u64_at_most("+10", 10), Some(10));
}

#[test]
fn parse_tags_keeps_order() {
    assert_eq!(parse_tags(" b ,a,b "), vec!["b", "a", "b"]);
}

#[test]
fn scan_output_formats() {
    assert_eq!(scan_output("registry").unwrap(), ScanOutput::Registry);
    assert_eq!(scan_output("yaml").unwrap(), ScanOutput::Yaml);
    assert_eq!(scan_output("http-proxy").unwrap(), ScanOutput::HttpProxy);
    match scan_output("csv") {
        Err(AxumApcoreError::Config(m)) => {
            assert_eq!(m, "Unknown output format: 'csv'. Available: registry, yaml, http-proxy")
        }
        _ => panic!("Expected a Config error"),
    }
    assert_eq!(yaml_output_dir(None), "apcore_modules");
    assert_eq!(yaml_output_dir(Some("out".into())), "out");
}

#[test]
fn export_formats() {
    assert!(check_export_format("openai-tools").is_ok());
    match check_export_format("csv") {
        Err(AxumApcoreError::Config(m)) => {
            assert_eq!(m, "Unknown export format: 'csv'. Available: openai-tools")
        }
        _ => panic!("Expected a Config error"),
    }
}

#[test]
fn serve_target_prefers_the_command_line() {
    let settings = ApcoreSettings::default();
    let t = serve_target(None, None, None, &settings);
    assert_eq!((t.transport.as_str(), t.host.as_str(), t.port), ("streamable-http", "127.0.0.1", 9090));
    let t = serve_target(Some("sse".into()), Some("0.0.0.0".into()), Some(1), &settings);
    assert_eq!((t.transport.as_str(), t.host.as_str(), t.port), ("sse", "0.0.0.0", 1));
}

#[test]
fn task_table_rows_are_padded() {
    assert_eq!(padded("ab", 4), "ab  ");
    assert_eq!(padded("abcdef", 4), "abcdef");
    let row = task_row("t1", "mod.a", "Running", "2024-01-01T00:00:00Z");
    assert_eq!(
        row,
        format!("{:<36} {:<20} {:<10} {}", "t1", "mod.a", "Running", "2024-01-01T00:00:00Z")
    );
}

#[test]
fn json_documents_convert_member_by_member() {
    let doc = JsonValue::Object(vec![
        ("a".to_string(), JsonValue::Array(vec![JsonValue::Null, JsonValue::Bool(true)])),
        ("b".to_string(), JsonValue::String("x".to_string())),
        ("c".to_string(), JsonValue::Number(serde_json::Number::from(3))),
    ]);
    let v = to_serde(&doc);
    assert_eq!(v, serde_json::from_str::<serde_json::Value>(r#"{"a":[null,true],"b":"x","c":3}"#).unwrap());
    assert!(matches!(get(&doc, "b"), Some(JsonValue::String(s)) if s == "x"));
    assert!(get(&doc, "z").is_none());
    assert!(get(&JsonValue::Null, "a").is_none());
}
