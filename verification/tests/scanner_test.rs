use axum_apcore::client::{executor_entries, scan_with, timeout_message, ExecutorEntry};
use axum_apcore::errors::AxumApcoreError;
use axum_apcore::json::JsonValue;
use axum_apcore::scanner::native::{
    clear_routes, extract_tag_from_path, get_registered_routes, register_route, NativeAxumScanner,
    RouteMetadata,
};
use axum_apcore::scanner::openapi::{is_http_method, strip_method_suffix, OpenAPIScanner};
use axum_apcore::scanner::{get_scanner, ScannedModule, ScannerSource};

fn json(text: &str) -> serde_json::Value {
    serde_json::from_str(text).unwrap()
}

/// The same document as plain values, members in document order.
fn plain(v: &serde_json::Value) -> JsonValue {
    match v {
        serde_json::Value::Null => JsonValue::Null,
        serde_json::Value::Bool(b) => JsonValue::Bool(*b),
        serde_json::Value::Number(n) => JsonValue::Number(n.clone()),
        serde_json::Value::String(s) => JsonValue::String(s.clone()),
        serde_json::Value::Array(items) => JsonValue::Array(items.iter().map(plain).collect()),
        serde_json::Value::Object(members) => JsonValue::Object(
            members.iter().map(|(k, v)| (k.clone(), plain(v))).collect(),
        ),
    }
}

fn metadata<'a>(m: &'a ScannedModule, key: &str) -> Option<&'a String> {
    m.metadata.iter().find(|(k, _)| k == key).map(|(_, v)| v)
}

fn sample_route() -> RouteMetadata {
    RouteMetadata {
        method: "GET".into(),
        path: "/api/users/:id".into(),
        handler_name: "get_user".into(),
        description: "Get a user by ID".into(),
        tags: vec!["users".into()],
        input_schema: json(r#"{"type": "object", "properties": {"id": {"type": "string"}}}"#),
        output_schema: json(r#"{"type": "object", "properties": {"name": {"type": "string"}}}"#),
        documentation: None,
    }
}

fn make_route(method: &str, path: &str, handler: &str, desc: &str) -> RouteMetadata {
    RouteMetadata {
        method: method.into(),
        path: path.into(),
        handler_name: handler.into(),
        description: desc.into(),
        tags: vec!["inttest".into()],
        input_schema: json(r#"{"type": "object", "properties": {"id": {"type": "string"}}}"#),
        output_schema: json(r#"{"type": "object", "properties": {"result": {"type": "string"}}}"#),
        documentation: None,
    }
}

#[test]
fn test_get_scanner_native() {
    let scanner = get_scanner("native").unwrap();
    assert_eq!(scanner.source_name(), "native");
}

#[test]
fn test_get_scanner_unknown() {
    let result = get_scanner("unknown");
    assert!(result.is_err());
}

#[test]
fn unknown_scanner_message() {
    assert_eq!(get_scanner("openapi").unwrap(), ScannerSource::OpenApi);
    match get_scanner("magic") {
        Err(AxumApcoreError::Scanner(m)) => {
            assert_eq!(m, "Unknown scanner source: 'magic'. Available: native, openapi")
        }
        _ => panic!("Expected a Scanner error"),
    }
}

#[test]
fn test_metadata_to_module() {
    let scanner = NativeAxumScanner::new();
    let meta = sample_route();
    let module = scanner.metadata_to_module(&meta);

    assert_eq!(module.module_id, "users.get_user.get");
    assert_eq!(module.description, "Get a user by ID");
    assert_eq!(module.target, "axum::get_user");
    assert!(module.annotations.as_ref().unwrap().readonly);
    assert!(module.annotations.as_ref().unwrap().cacheable);
}

#[test]
fn test_metadata_to_module_no_tags() {
    let scanner = NativeAxumScanner::new();
    let meta = RouteMetadata {
        method: "POST".into(),
        path: "/api/tasks".into(),
        handler_name: "create_task".into(),
        description: "Create a task".into(),
        tags: vec![],
        input_schema: json("{}"),
        output_schema: json("{}"),
        documentation: None,
    };
    let module = scanner.metadata_to_module(&meta);
    assert_eq!(module.module_id, "tasks.create_task.post");
}

#[test]
fn test_extract_tag_from_path() {
    assert_eq!(extract_tag_from_path("/api/users/:id"), "users");
    assert_eq!(extract_tag_from_path("/api/v1/tasks"), "tasks");
    assert_eq!(extract_tag_from_path("/health"), "health");
    assert_eq!(extract_tag_from_path("/"), "default");
}

#[test]
fn only_version_segments_are_skipped() {
    assert_eq!(extract_tag_from_path("/api/videos/:id"), "videos");
    assert_eq!(extract_tag_from_path("/v/x"), "v");
    assert_eq!(extract_tag_from_path("/v2beta/items"), "items");
}

#[test]
fn test_scan_routes_with_multiple() {
    let scanner = NativeAxumScanner::new();
    let routes = vec![
        sample_route(),
        RouteMetadata {
            method: "DELETE".into(),
            path: "/api/users/:id".into(),
            handler_name: "delete_user".into(),
            description: "Delete a user".into(),
            tags: vec!["users".into()],
            input_schema: json("{}"),
            output_schema: json("{}"),
            documentation: None,
        },
    ];
    let modules = scanner.scan_routes(&routes, None, None).unwrap();

    assert_eq!(modules.len(), 2);
    assert_eq!(modules[0].module_id, "users.get_user.get");
    assert_eq!(modules[1].module_id, "users.delete_user.delete");

    // Verify annotations
    assert!(modules[0].annotations.as_ref().unwrap().readonly);
    assert!(modules[1].annotations.as_ref().unwrap().destructive);
}

#[test]
fn test_scan_routes_with_include_filter() {
    let scanner = NativeAxumScanner::new();
    let routes = vec![
        sample_route(),
        RouteMetadata {
            method: "GET".into(),
            path: "/api/tasks".into(),
            handler_name: "list_tasks".into(),
            description: "List tasks".into(),
            tags: vec!["tasks".into()],
            input_schema: json("{}"),
            output_schema: json("{}"),
            documentation: None,
        },
    ];
    let modules = scanner.scan_routes(&routes, Some("tasks"), None).unwrap();

    assert_eq!(modules.len(), 1);
    assert_eq!(modules[0].module_id, "tasks.list_tasks.get");
}

#[test]
fn test_scan_routes_empty() {
    let scanner = NativeAxumScanner::new();
    let modules = scanner.scan_routes(&[], None, None).unwrap();
    assert!(modules.is_empty());
}

#[test]
fn test_metadata_http_method_in_metadata() {
    let scanner = NativeAxumScanner::new();
    let meta = sample_route();
    let module = scanner.metadata_to_module(&meta);
    assert_eq!(metadata(&module, "http_method").unwrap(), "GET");
    assert_eq!(metadata(&module, "url_path").unwrap(), "/api/users/:id");
}

#[test]
fn test_scanner_include_exclude() {
    let scanner = NativeAxumScanner::new();
    let routes = vec![
        make_route("GET", "/api/users/:id", "scan_get_user", "Get user"),
        make_route("POST", "/api/tasks", "scan_create_task", "Create task"),
        make_route("DELETE", "/api/users/:id", "scan_delete_user", "Delete user"),
    ];

    // Include only users
    let filtered = scanner.scan_routes(&routes, Some("user"), None).unwrap();
    assert_eq!(filtered.len(), 2);

    // Exclude delete
    let filtered = scanner.scan_routes(&routes, None, Some("delete")).unwrap();
    assert_eq!(filtered.len(), 2);

    // Include users + exclude delete
    let filtered = scanner
        .scan_routes(&routes, Some("user"), Some("delete"))
        .unwrap();
    assert_eq!(filtered.len(), 1);
    assert!(filtered[0].module_id.contains("scan_get_user"));
}

#[test]
fn invalid_pattern_is_a_regex_error() {
    let scanner = NativeAxumScanner::new();
    let r = scanner.scan_routes(&[sample_route()], Some("("), None);
    assert!(matches!(r, Err(AxumApcoreError::Regex(_))));
    let r = scanner.scan_routes(&[sample_route()], None, Some("[z-a]"));
    assert!(matches!(r, Err(AxumApcoreError::Regex(_))));
}

#[test]
fn duplicate_ids_are_made_unique() {
    let scanner = NativeAxumScanner::new();
    let modules = scanner
        .scan_routes(&[sample_route(), sample_route()], None, None)
        .unwrap();
    assert_eq!(modules.len(), 2);
    assert_eq!(modules[0].module_id, "users.get_user.get");
    assert_ne!(modules[0].module_id, modules[1].module_id);
}

#[test]
fn route_registry_holds_what_was_registered() {
    let mut registry: Vec<RouteMetadata> = Vec::new();
    register_route(&mut registry, sample_route());
    register_route(&mut registry, make_route("PUT", "/x", "put_x", "Put x"));
    let copy = get_registered_routes(&registry);
    assert_eq!(copy.len(), 2);
    assert_eq!(copy[1].handler_name, "put_x");
    assert_eq!(copy[0].input_schema, sample_route().input_schema);
    clear_routes(&mut registry);
    assert!(get_registered_routes(&registry).is_empty());
}

#[test]
fn scanning_with_the_chosen_scanner() {
    let routes = vec![sample_route()];
    let modules = scan_with(ScannerSource::Native, &routes, None, None).unwrap();
    assert_eq!(modules[0].module_id, "users.get_user.get");
    match scan_with(ScannerSource::OpenApi, &routes, None, None) {
        Err(AxumApcoreError::Scanner(m)) => assert!(m.starts_with("OpenAPIScanner requires a spec.")),
        _ => panic!("Expected a Scanner error"),
    }
}

#[test]
fn modules_with_handlers_are_picked_by_target() {
    let scanner = NativeAxumScanner::new();
    let routes = vec![
        make_route("GET", "/a", "a", "A"),
        make_route("GET", "/b", "b", "B"),
        make_route("GET", "/c", "c", "C"),
    ];
    let modules = scanner.scan_routes(&routes, None, None).unwrap();
    let targets = vec!["axum::c".to_string(), "axum::a".to_string(), "other".to_string()];
    assert_eq!(
        executor_entries(&modules, &targets),
        vec![ExecutorEntry::Handler, ExecutorEntry::Passthrough, ExecutorEntry::Handler]
    );
    assert_eq!(
        executor_entries(&modules, &Vec::new()),
        vec![ExecutorEntry::Passthrough; 3]
    );
}

#[test]
fn timeout_is_reported_in_milliseconds() {
    assert_eq!(
        timeout_message("inttest.slow.post", 100),
        "Module 'inttest.slow.post' timed out after 100ms"
    );
    assert_eq!(timeout_message("m", 0), "Module 'm' timed out after 0ms");
}

fn sample_spec() -> serde_json::Value {
    json(
        r#"{
        "openapi": "3.1.0",
        "info": {"title": "Test API", "version": "1.0.0"},
        "paths": {
            "/api/users/{id}": {
                "get": {
                    "operationId": "get_user_get",
                    "summary": "Get a user by ID",
                    "tags": ["users"],
                    "parameters": [{
                        "name": "id",
                        "in": "path",
                        "required": true,
                        "schema": {"type": "string"}
                    }],
                    "responses": {
                        "200": {
                            "description": "Success",
                            "content": {
                                "application/json": {
                                    "schema": {
                                        "type": "object",
                                        "properties": {
                                            "name": {"type": "string"}
                                        }
                                    }
                                }
                            }
                        }
                    }
                }
            },
            "/api/tasks": {
                "post": {
                    "operationId": "create_task_post",
                    "summary": "Create a task",
                    "tags": ["tasks"],
                    "requestBody": {
                        "content": {
                            "application/json": {
                                "schema": {
                                    "type": "object",
                                    "properties": {
                                        "title": {"type": "string"}
                                    },
                                    "required": ["title"]
                                }
                            }
                        }
                    },
                    "responses": {
                        "201": {
                            "description": "Created",
                            "content": {
                                "application/json": {
                                    "schema": {
                                        "type": "object",
                                        "properties": {
                                            "id": {"type": "string"},
                                            "title": {"type": "string"}
                                        }
                                    }
                                }
                            }
                        }
                    }
                }
            }
        }
    }"#,
    )
}

#[test]
fn test_scan_spec() {
    let scanner = OpenAPIScanner::new();
    let spec = plain(&sample_spec());
    let modules = scanner.scan_spec(&spec, None, None).unwrap();

    assert_eq!(modules.len(), 2);

    let get_mod = modules
        .iter()
        .find(|m| m.module_id.contains("get_user"))
        .unwrap();
    assert_eq!(get_mod.module_id, "users.get_user.get");
    assert_eq!(get_mod.description, "Get a user by ID");
    assert!(get_mod.annotations.as_ref().unwrap().readonly);

    let post_mod = modules
        .iter()
        .find(|m| m.module_id.contains("create_task"))
        .unwrap();
    assert_eq!(post_mod.module_id, "tasks.create_task.post");
}

#[test]
fn test_scan_spec_with_filter() {
    let scanner = OpenAPIScanner::new();
    let spec = plain(&sample_spec());
    let modules = scanner.scan_spec(&spec, Some("users"), None).unwrap();
    assert_eq!(modules.len(), 1);
    assert!(modules[0].module_id.contains("users"));
}

#[test]
fn test_strip_method_suffix() {
    assert_eq!(strip_method_suffix("get_user_get", "get"), "get_user");
    assert_eq!(strip_method_suffix("create_task_post", "post"), "create_task");
    assert_eq!(strip_method_suffix("get_user", "get"), "get_user");
}

#[test]
fn test_is_http_method() {
    assert!(is_http_method("get"));
    assert!(is_http_method("POST"));
    assert!(is_http_method("delete"));
    assert!(!is_http_method("parameters"));
    assert!(!is_http_method("summary"));
}

#[test]
fn test_scan_spec_no_simplify() {
    let scanner = OpenAPIScanner::with_simplify_ids(false);
    let spec = plain(&sample_spec());
    let modules = scanner.scan_spec(&spec, None, None).unwrap();

    let get_mod = modules
        .iter()
        .find(|m| m.module_id.contains("get_user"))
        .unwrap();
    assert_eq!(get_mod.module_id, "users.get_user_get.get");
}

#[test]
fn test_scan_spec_empty() {
    let scanner = OpenAPIScanner::new();
    let spec = plain(&json(r#"{"openapi": "3.1.0", "paths": {}}"#));
    let modules = scanner.scan_spec(&spec, None, None).unwrap();
    assert!(modules.is_empty());
}

#[test]
fn test_scan_spec_no_paths() {
    let scanner = OpenAPIScanner::new();
    let spec = plain(&json(r#"{"openapi": "3.1.0"}"#));
    let result = scanner.scan_spec(&spec, None, None);
    assert!(result.is_err());
}

#[test]
fn test_metadata_stored() {
    let scanner = OpenAPIScanner::new();
    let spec = plain(&sample_spec());
    let modules = scanner.scan_spec(&spec, None, None).unwrap();
    let m = &modules[0];
    assert!(metadata(m, "http_method").is_some());
    assert!(metadata(m, "url_path").is_some());
}

#[test]
fn test_openapi_scanner_end_to_end() {
    let scanner = OpenAPIScanner::new();
    let spec = plain(&json(
        r#"{
        "openapi": "3.1.0",
        "info": {"title": "Test", "version": "1.0.0"},
        "paths": {
            "/items": {
                "get": {
                    "operationId": "list_items_get",
                    "summary": "List items",
                    "tags": ["items"],
                    "responses": {"200": {"description": "OK"}}
                }
            }
        }
    }"#,
    ));

    let modules = scanner.scan_spec(&spec, None, None).unwrap();
    assert_eq!(modules.len(), 1);
    assert_eq!(modules[0].module_id, "items.list_items.get");
    assert!(modules[0].annotations.as_ref().unwrap().readonly);
}

#[test]
fn openapi_module_fields() {
    let scanner = OpenAPIScanner::default();
    let spec = plain(&sample_spec());
    let modules = scanner.scan_spec(&spec, None, None).unwrap();
    let post = &modules[1];
    assert_eq!(post.target, "axum::create_task_post");
    assert_eq!(post.tags, vec!["tasks"]);
    assert_eq!(metadata(post, "http_method").unwrap(), "POST");
    assert_eq!(metadata(post, "url_path").unwrap(), "/api/tasks");
    assert_eq!(post.version, "1.0.0");
    assert!(post.documentation.is_none());
    assert_eq!(post.input_schema["properties"]["title"]["type"], "string");
    match scanner.scan_spec(&plain(&json(r#"{"paths": []}"#)), None, None) {
        Err(AxumApcoreError::Scanner(m)) => assert_eq!(m, "No 'paths' in OpenAPI spec"),
        _ => panic!("Expected a Scanner error"),
    }
}

#[test]
fn readme_example_module_id() {
    let scanner = OpenAPIScanner::new();
    let spec = plain(&json(
        r#"{
        "openapi": "3.1.0",
        "info": {"title": "My API", "version": "1.0.0"},
        "paths": {
            "/users/{id}": {
                "get": {
                    "operationId": "get_user_get",
                    "summary": "Get user",
                    "tags": ["users"],
                    "responses": {"200": {"description": "OK"}}
                }
            }
        }
    }"#,
    ));
    let modules = scanner.scan_spec(&spec, None, None).unwrap();
    assert_eq!(modules[0].module_id, "users.get_user.get");
}

#[test]
fn operation_id_round_trip_and_defaults() {
    assert_eq!(strip_method_suffix("list_x_patch", "PATCH"), "list_x");
    assert_eq!(strip_method_suffix("_get", "get"), "");
    assert_eq!(strip_method_suffix("get", "get"), "get");
    let scanner = OpenAPIScanner::new();
    let spec = plain(&json(r#"{"paths": {"/p": {"put": {}, "summary": "s"}}}"#));
    let modules = scanner.scan_spec(&spec, None, None).unwrap();
    assert_eq!(modules.len(), 1);
    assert_eq!(modules[0].module_id, "default.unknown.put");
    assert_eq!(modules[0].description, "");
    assert!(modules[0].annotations.as_ref().unwrap().idempotent);
}

#[test]
fn the_keep_pattern_is_compiled_first() {
    let scanner = NativeAxumScanner::new();
    let keep_error = regex::Regex::new("(").unwrap_err().to_string();
    let drop_error = regex::Regex::new("[z-a]").unwrap_err().to_string();
    assert_ne!(keep_error, drop_error);
    match scanner.scan_routes(&[sample_route()], Some("("), Some("[z-a]")) {
        Err(AxumApcoreError::Regex(e)) => assert_eq!(e.to_string(), keep_error),
        _ => panic!("Expected a Regex error"),
    }
    match scanner.scan_routes(&[sample_route()], Some("users"), Some("[z-a]")) {
        Err(AxumApcoreError::Regex(e)) => assert_eq!(e.to_string(), drop_error),
        _ => panic!("Expected a Regex error"),
    }
}
