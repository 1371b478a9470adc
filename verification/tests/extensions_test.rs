use axum_apcore::config::ApcoreSettings;
use axum_apcore::engine::extensions::{
    binding_name_matches, collect_discovered, load_binding_text, modules_from_binding, AxumDiscoverer,
    AxumModuleValidator, DiscoveredModule, MAX_MODULE_ID_LENGTH,
};
use axum_apcore::errors::AxumApcoreError;
use axum_apcore::json::JsonValue;

#[test]
fn test_validator_valid_id() {
    let v = AxumModuleValidator::new();
    assert!(v.validate("users.get_user.get").is_empty());
}

#[test]
fn test_validator_empty_id() {
    let v = AxumModuleValidator::new();
    let errors = v.validate("");
    assert!(!errors.is_empty());
    assert!(errors[0].contains("empty"));
}

#[test]
fn test_validator_reserved_word() {
    let v = AxumModuleValidator::new();
    let errors = v.validate("apcore");
    assert!(!errors.is_empty());
    assert!(errors[0].contains("reserved"));
}

#[test]
fn test_validator_too_long() {
    let v = AxumModuleValidator::new();
    let long_id = "a".repeat(300);
    let errors = v.validate(&long_id);
    assert!(!errors.is_empty());
    assert!(errors[0].contains("exceeds"));
}

#[test]
fn test_validator_double_dot() {
    let v = AxumModuleValidator::new();
    let errors = v.validate("users..get");
    assert!(!errors.is_empty());
    assert!(errors[0].contains("empty segment"));
}

#[test]
fn validator_reports_every_problem_in_order() {
    let v = AxumModuleValidator::default();
    assert_eq!(v.validate(""), vec!["Module ID cannot be empty"]);
    assert_eq!(
        v.validate("a..b."),
        vec![
            "Module ID 'a..b.' contains empty segment (double dot)",
            "Module ID 'a..b.' contains empty segment (double dot)",
        ]
    );
    assert_eq!(v.validate("system"), vec!["Module ID 'system' is a reserved word"]);
    let long_id = format!("{}..", "x".repeat(255));
    let errors = v.validate(&long_id);
    assert_eq!(errors.len(), 3);
    assert_eq!(
        errors[0],
        format!("Module ID '{long_id}' exceeds maximum length of 256")
    );
}

#[test]
fn validator_length_limit_counts_bytes() {
    let v = AxumModuleValidator::new();
    assert_eq!(MAX_MODULE_ID_LENGTH, 256);
    assert!(v.validate(&"a".repeat(256)).is_empty());
    assert_eq!(v.validate(&"a".repeat(257)).len(), 1);
    // 129 two-byte characters are 258 bytes.
    assert_eq!(v.validate(&"é".repeat(129)).len(), 1);
    assert!(v.validate(&"é".repeat(128)).is_empty());
}

fn text(s: &str) -> JsonValue {
    JsonValue::String(s.to_string())
}

fn object(members: Vec<(&str, JsonValue)>) -> JsonValue {
    JsonValue::Object(members.into_iter().map(|(k, v)| (k.to_string(), v)).collect())
}

#[test]
fn binding_document_declares_modules() {
    let doc = object(vec![(
        "modules",
        JsonValue::Array(vec![
            object(vec![
                ("module_id", text("users.get")),
                ("target", text("app::get_user")),
                ("description", text("Get a user")),
                ("tags", JsonValue::Array(vec![text("users"), JsonValue::Null, text("read")])),
                ("input_schema", object(vec![("type", text("string"))])),
            ]),
            object(vec![("module_id", JsonValue::Bool(true))]),
        ]),
    )]);
    let modules = modules_from_binding("a.binding.yaml", &doc).unwrap();
    assert_eq!(modules.len(), 2);
    assert_eq!(modules[0].module_id, "users.get");
    assert_eq!(modules[0].target, "app::get_user");
    assert_eq!(modules[0].description, "Get a user");
    assert_eq!(modules[0].tags, vec!["users", "read"]);
    assert_eq!(modules[0].input_schema, serde_json::from_str::<serde_json::Value>(r#"{"type":"string"}"#).unwrap());
    assert_eq!(modules[0].output_schema, serde_json::from_str::<serde_json::Value>(r#"{"type":"object"}"#).unwrap());
    assert_eq!(modules[1].module_id, "");
    assert!(modules[1].tags.is_empty());
    let defaults = apcore::module::ModuleAnnotations::default();
    assert_eq!(modules[0].annotations.readonly, defaults.readonly);
    assert_eq!(modules[0].annotations.destructive, defaults.destructive);
    assert_eq!(modules[0].annotations.idempotent, defaults.idempotent);
}

#[test]
fn binding_document_without_modules_is_an_error() {
    let doc = object(vec![("other", JsonValue::Null)]);
    match modules_from_binding("x.binding.yaml", &doc) {
        Err(AxumApcoreError::Config(m)) => {
            assert_eq!(m, "No 'modules' array in binding file: x.binding.yaml")
        }
        _ => panic!("Expected a Config error"),
    }
    assert!(modules_from_binding("y", &object(vec![("modules", text("no"))])).is_err());
}

#[test]
fn binding_file_names_match_by_suffix() {
    assert!(binding_name_matches("users.binding.yaml", "*.binding.yaml"));
    assert!(!binding_name_matches("users.yaml", "*.binding.yaml"));
    assert!(binding_name_matches("exact.yaml", "exact.yaml"));
    assert!(!binding_name_matches("a", "*.binding.yaml"));
}

fn discovered(id: &str) -> DiscoveredModule {
    let doc = object(vec![(
        "modules",
        JsonValue::Array(vec![object(vec![("module_id", text(id))])]),
    )]);
    modules_from_binding("f", &doc).unwrap().remove(0)
}

#[test]
fn discovery_skips_files_that_failed() {
    let batches = vec![
        Ok(vec![discovered("a"), discovered("b")]),
        Err(AxumApcoreError::Config("bad".to_string())),
        Ok(vec![discovered("c")]),
    ];
    let ids: Vec<String> = collect_discovered(batches).into_iter().map(|d| d.module_id).collect();
    assert_eq!(ids, vec!["a", "b", "c"]);
}

#[test]
fn discoverer_reads_its_settings() {
    let settings = ApcoreSettings {
        module_dir: "bindings".into(),
        ..ApcoreSettings::default()
    };
    let d = AxumDiscoverer::new(settings);
    assert_eq!(d.module_dir(), "bindings");
    assert_eq!(d.binding_pattern(), "*.binding.yaml");
}

#[test]
fn binding_text_fills_defaults() {
    let modules =
        load_binding_text("b.yaml", "modules:\n  - module_id: a.b\n    tags: [x, 1]\n").unwrap();
    assert_eq!(modules.len(), 1);
    let m = &modules[0];
    assert_eq!(m.module_id, "a.b");
    assert_eq!(m.target, "");
    assert_eq!(m.description, "");
    let object = serde_json::from_str::<serde_json::Value>(r#"{"type":"object"}"#).unwrap();
    assert_eq!(m.input_schema, object);
    assert_eq!(m.output_schema, object);
    assert_eq!(m.tags, vec!["x"]);
    let a = &m.annotations;
    assert!(!a.readonly && !a.destructive && !a.idempotent && !a.requires_approval);
    assert!(a.open_world && a.discoverable && !a.streaming && !a.cacheable && !a.paginated);
    assert_eq!(a.cache_ttl, 0);
    assert!(a.cache_key_fields.is_none());
    assert_eq!(a.pagination_style, "cursor");
    assert!(a.extra.is_empty());
}

#[test]
fn binding_text_errors() {
    match load_binding_text("b.yaml", "other: 1\n") {
        Err(AxumApcoreError::Config(m)) => assert_eq!(m, "No 'modules' array in binding file: b.yaml"),
        _ => panic!("Expected a Config error"),
    }
    match load_binding_text("c.yaml", "modules: [unclosed\n") {
        Err(AxumApcoreError::Config(m)) => assert!(m.starts_with("Failed to parse c.yaml: "), "{m}"),
        _ => panic!("Expected a Config error"),
    }
}
