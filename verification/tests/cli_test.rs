use axum_apcore::cli::{parse_cli, parse_tags, Cli, Commands, TaskCommands};

fn args(items: &[&str]) -> Vec<String> {
    items.iter().map(|s| s.to_string()).collect()
}

#[test]
fn test_cli_parse_scan() {
    let cli = Cli::try_parse_from(&args(&["axum-apcore", "scan"])).unwrap();
    assert!(matches!(cli.command, Commands::Scan { .. }));
}

#[test]
fn test_cli_parse_serve() {
    let cli = Cli::try_parse_from(&args(&["axum-apcore", "serve"])).unwrap();
    assert!(matches!(cli.command, Commands::Serve { .. }));
}

#[test]
fn test_cli_parse_export() {
    let cli = Cli::try_parse_from(&args(&["axum-apcore", "export"])).unwrap();
    assert!(matches!(cli.command, Commands::Export { .. }));
}

#[test]
fn test_cli_parse_tasks_list() {
    let cli = Cli::try_parse_from(&args(&["axum-apcore", "tasks", "list"])).unwrap();
    assert!(matches!(
        cli.command,
        Commands::Tasks {
            action: TaskCommands::List { .. }
        }
    ));
}

#[test]
fn test_cli_parse_tasks_cancel() {
    let cli = Cli::try_parse_from(&args(&["axum-apcore", "tasks", "cancel", "task-123"])).unwrap();
    assert!(matches!(
        cli.command,
        Commands::Tasks {
            action: TaskCommands::Cancel { .. }
        }
    ));
}

/// Every option that the commands declare is accepted with its value.
#[test]
fn test_cli_verify() {
    let lines: Vec<Vec<&str>> = vec![
        vec![
            "axum-apcore", "scan", "--source", "native", "--output", "registry", "--dir", "out",
            "--dry-run", "--include", "a", "--exclude", "b", "--verify",
        ],
        vec![
            "axum-apcore", "serve", "--transport", "stdio", "--host", "h", "--port", "1",
            "--explorer", "--jwt-secret", "s", "--approval", "deny", "--tags", "t", "--prefix", "p",
        ],
        vec![
            "axum-apcore", "export", "--format", "openai-tools", "--strict", "--embed-annotations",
            "--tags", "t", "--prefix", "p",
        ],
        vec!["axum-apcore", "tasks", "list", "--status", "running"],
        vec!["axum-apcore", "tasks", "cancel", "x"],
        vec!["axum-apcore", "tasks", "cleanup", "--max-age", "10"],
    ];
    for line in lines {
        assert!(Cli::try_parse_from(&args(&line)).is_ok(), "{line:?}");
    }
}

#[test]
fn test_parse_tags() {
    assert_eq!(parse_tags("a, b, c"), vec!["a", "b", "c"]);
    assert_eq!(parse_tags("single"), vec!["single"]);
    assert_eq!(parse_tags(""), Vec::<String>::new());
    assert_eq!(parse_tags("a,,b"), vec!["a", "b"]);
}

#[test]
fn test_cli_parse_scan_with_options() {
    let cli = Cli::try_parse_from(&args(&[
        "axum-apcore",
        "scan",
        "--source",
        "openapi",
        "--output",
        "yaml",
        "--dry-run",
        "--include",
        "users",
        "--verify",
    ]))
    .unwrap();
    match cli.command {
        Commands::Scan {
            source,
            output,
            dry_run,
            include_pattern,
            verify,
            ..
        } => {
            assert_eq!(source, "openapi");
            assert_eq!(output, "yaml");
            assert!(dry_run);
            assert_eq!(include_pattern.unwrap(), "users");
            assert!(verify);
        }
        _ => panic!("Expected Scan command"),
    }
}

#[test]
fn test_cli_parse_serve_with_options() {
    let cli = Cli::try_parse_from(&args(&[
        "axum-apcore",
        "serve",
        "--transport",
        "sse",
        "--host",
        "0.0.0.0",
        "--port",
        "8080",
        "--tags",
        "users,tasks",
    ]))
    .unwrap();
    match cli.command {
        Commands::Serve {
            transport,
            host,
            port,
            tags,
            ..
        } => {
            assert_eq!(transport.unwrap(), "sse");
            assert_eq!(host.unwrap(), "0.0.0.0");
            assert_eq!(port.unwrap(), 8080);
            assert_eq!(tags.unwrap(), "users,tasks");
        }
        _ => panic!("Expected Serve command"),
    }
}

#[test]
fn cli_defaults_fill_options_left_out() {
    let cli = parse_cli(&args(&["axum-apcore", "scan"])).unwrap();
    match cli.command {
        Commands::Scan {
            source,
            output,
            dir,
            dry_run,
            include_pattern,
            exclude_pattern,
            verify,
        } => {
            assert_eq!(source, "native");
            assert_eq!(output, "registry");
            assert!(dir.is_none());
            assert!(!dry_run);
            assert!(include_pattern.is_none());
            assert!(exclude_pattern.is_none());
            assert!(!verify);
        }
        _ => panic!("Expected Scan command"),
    }
    let cli = parse_cli(&args(&["axum-apcore", "tasks", "cleanup"])).unwrap();
    assert!(matches!(
        cli.command,
        Commands::Tasks {
            action: TaskCommands::Cleanup { max_age: 3600 }
        }
    ));
    let cli = parse_cli(&args(&["axum-apcore", "serve"])).unwrap();
    match cli.command {
        Commands::Serve { approval, port, explorer, .. } => {
            assert_eq!(approval, "auto");
            assert!(port.is_none());
            assert!(!explorer);
        }
        _ => panic!("Expected Serve command"),
    }
}

#[test]
fn cli_equals_form_and_double_dash() {
    let cli = parse_cli(&args(&["axum-apcore", "export", "--format=yaml", "--tags=a,b"])).unwrap();
    match cli.command {
        Commands::Export { format, tags, .. } => {
            assert_eq!(format, "yaml");
            assert_eq!(tags.unwrap(), "a,b");
        }
        _ => panic!("Expected Export command"),
    }
    let cli = parse_cli(&args(&["axum-apcore", "tasks", "cancel", "--", "--odd-id"])).unwrap();
    match cli.command {
        Commands::Tasks {
            action: TaskCommands::Cancel { task_id },
        } => assert_eq!(task_id, "--odd-id"),
        _ => panic!("Expected Cancel command"),
    }
}

#[test]
fn cli_rejects_what_it_does_not_know() {
    let bad: Vec<Vec<&str>> = vec![
        vec![],
        vec!["axum-apcore"],
        vec!["axum-apcore", "launch"],
        vec!["axum-apcore", "tasks"],
        vec!["axum-apcore", "tasks", "purge"],
        vec!["axum-apcore", "scan", "--unknown"],
        vec!["axum-apcore", "scan", "--source"],
        vec!["axum-apcore", "scan", "--source", "--dry-run"],
        vec!["axum-apcore", "scan", "--source", "a", "--source", "b"],
        vec!["axum-apcore", "scan", "--dry-run=true"],
        vec!["axum-apcore", "scan", "-x"],
        vec!["axum-apcore", "scan", "extra"],
        vec!["axum-apcore", "serve", "--port", "70000"],
        vec!["axum-apcore", "serve", "--port", "eighty"],
        vec!["axum-apcore", "tasks", "cancel"],
        vec!["axum-apcore", "tasks", "cancel", "a", "b"],
        vec!["axum-apcore", "tasks", "cleanup", "--max-age", "-1"],
        vec!["axum-apcore", "--help"],
    ];
    for line in bad {
        let r = parse_cli(&args(&line));
        assert!(r.is_err(), "{line:?}");
        match r {
            Err(axum_apcore::errors::AxumApcoreError::Config(m)) => {
                assert_eq!(m, "invalid command line; run with --help for usage")
            }
            _ => panic!("Expected a Config error"),
        }
    }
}

#[test]
fn tags_are_trimmed_and_never_empty() {
    for list in ["  x ,\ty\n, ,z", ",,,", " a "] {
        for t in parse_tags(list) {
            assert!(!t.is_empty());
            assert_eq!(t.trim(), t);
        }
    }
}
