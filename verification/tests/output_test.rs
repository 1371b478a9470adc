use axum_apcore::cli::{cancel_outcome, cleanup_outcome, scan_report, task_list_lines};
use axum_apcore::client::{mcp_server_plan, McpTransport};
use axum_apcore::config::ApcoreSettings;
use axum_apcore::engine::tasks::TaskManager;
use axum_apcore::errors::AxumApcoreError;
use axum_apcore::scanner::native::{NativeAxumScanner, RouteMetadata};

#[test]
fn error_status_and_text() {
    let e = AxumApcoreError::Context("no identity".into());
    assert_eq!(e.status_code(), 401);
    assert_eq!(e.message(), "no identity");
    assert_eq!(e.to_text(), "Context extraction error: no identity");
    let e = AxumApcoreError::Config("bad".into());
    assert_eq!(e.status_code(), 500);
    assert_eq!(e.to_text(), "Configuration error: bad");
    assert_eq!(AxumApcoreError::Scanner("s".into()).to_text(), "Scanner error: s");
    assert_eq!(AxumApcoreError::Registration("r".into()).to_text(), "Registration error: r");
    let regex_error = regex::Regex::new("(").unwrap_err();
    let shown = regex_error.to_string();
    let e = AxumApcoreError::Regex(regex_error);
    assert_eq!(e.status_code(), 400);
    assert_eq!(e.message(), shown);
    assert_eq!(e.to_text(), format!("Regex error: {shown}"));
    let json_error = serde_json::from_str::<serde_json::Value>("{").unwrap_err();
    let shown = json_error.to_string();
    let e = AxumApcoreError::Json(json_error);
    assert_eq!(e.status_code(), 400);
    assert_eq!(e.message(), shown);
    let module_error = apcore::ModuleError::new(apcore::ErrorCode::ModuleTimeout, "slow");
    let shown = module_error.to_string();
    let e = AxumApcoreError::Execution(module_error);
    assert_eq!(e.status_code(), 500);
    assert_eq!(e.message(), "slow");
    assert_eq!(e.to_text(), format!("Module execution error: {shown}"));
}

#[test]
fn task_table_lines() {
    let settings = ApcoreSettings::default();
    let mut mgr = TaskManager::from_settings(&settings);
    assert_eq!(task_list_lines(&mgr.list_tasks(None)), vec!["No tasks found."]);
    mgr.submit("t1".into(), "mod.a".into()).unwrap();
    mgr.submit("t2".into(), "mod.b".into()).unwrap();
    let tasks = mgr.list_tasks(None);
    let lines = task_list_lines(&tasks);
    assert_eq!(lines.len(), 5);
    assert_eq!(lines[0], format!("{:<36} {:<20} {:<10} {}", "TASK ID", "MODULE", "STATUS", "CREATED"));
    assert_eq!(
        lines[2],
        format!("{:<36} {:<20} {:<10} {}", "t2", "mod.b", "Running", tasks[1].created_at)
    );
    assert_eq!(lines[3], "");
    assert_eq!(lines[4], "Total: 2 tasks");
}

#[test]
fn task_command_messages() {
    assert_eq!(cancel_outcome("t1", true), "Task 't1' cancelled.");
    assert_eq!(cancel_outcome("t1", false), "Task 't1' not found or not running.");
    assert_eq!(cleanup_outcome(3, 3600), "Cleaned up 3 tasks (older than 3600s).");
    assert_eq!(cleanup_outcome(0, 0), "Cleaned up 0 tasks (older than 0s).");
}

#[test]
fn scan_report_lines() {
    let route = RouteMetadata {
        method: "GET".into(),
        path: "/api/users".into(),
        handler_name: "list_users".into(),
        description: "List users".into(),
        tags: vec![],
        input_schema: serde_json::Value::Null,
        output_schema: serde_json::Value::Null,
        documentation: None,
    };
    let modules = NativeAxumScanner::new().scan_routes(&[route], None, None).unwrap();
    assert_eq!(
        scan_report(&modules, "native"),
        vec![
            "Scanned 1 modules via 'native' scanner",
            "  - users.list_users.get (List users)",
        ]
    );
    assert_eq!(scan_report(&Vec::new(), "openapi"), vec!["Scanned 0 modules via 'openapi' scanner"]);
}

#[test]
fn mcp_server_follows_the_settings() {
    let settings = ApcoreSettings {
        serve_transport: "SSE".into(),
        jwt_secret: Some("SECRET-REDACTED".into()),
        tracing: true,
        ..ApcoreSettings::default()
    };
    let plan = mcp_server_plan(&settings).unwrap();
    assert_eq!(plan.transport, McpTransport::Sse);
    assert_eq!(plan.host, "127.0.0.1");
    assert_eq!(plan.port, 9090);
    assert_eq!(plan.name, "axum-apcore");
    assert!(plan.validate_inputs && plan.require_auth && plan.trace && plan.explorer);
    assert_eq!(plan.explorer_prefix, "/explorer");
    let plan = mcp_server_plan(&ApcoreSettings::default()).unwrap();
    assert_eq!(plan.transport, McpTransport::StreamableHttp);
    assert!(!plan.require_auth);
    let settings = ApcoreSettings {
        serve_transport: "grpc".into(),
        ..ApcoreSettings::default()
    };
    match mcp_server_plan(&settings) {
        Err(AxumApcoreError::Config(m)) => {
            assert_eq!(m, "Invalid transport: unknown transport: \"grpc\"")
        }
        _ => panic!("Expected a Config error"),
    }
}
