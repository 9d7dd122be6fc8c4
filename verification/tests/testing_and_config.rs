use fks_main::config::{
    parse_bool, parse_u16, APIConfig, AppConfig, AuthConfig, ConfigError, DatabaseConfig,
    FKSConfig, MonitoringConfig, PathsConfig, RedisConfig, ServiceConfig,
};
use fks_main::registry::RegistryEntry;
use fks_main::runsh::{
    conclude_execution, RunShCommand, RunShError, RunShExecutor, RunShOutcome, RunShResponse,
};
use fks_main::testrun::{
    build_test_config, default_test_command, dependency_union, extract_test_configs,
    finish_service_test, plan_service_test, stderr_preview, summarize_tests, ServiceTestConfig,
    SpawnOutcome, TestPlan, TestResult,
};

fn entry(name: &str) -> RegistryEntry {
    RegistryEntry {
        name: name.to_string(),
        health_url: None,
        base_url: None,
        metrics_url: None,
        port: None,
        port_docker: None,
        framework: None,
        test_command: None,
        test_dependencies: Vec::new(),
        requires_gpu: false,
    }
}

#[test]
fn framework_default_commands() {
    assert_eq!(
        default_test_command("fastapi"),
        "pytest -n auto --cov=src --cov-report=term-missing"
    );
    assert_eq!(
        default_test_command("django"),
        "pytest -n auto --cov=src --cov-report=term-missing"
    );
    assert_eq!(default_test_command("axum"), "cargo test --workspace --all-targets");
    assert_eq!(default_test_command("unknown"), "pytest");
}

// Scenario: a filtered test run over a registry of three services, of
// which exactly one matches; its command resolves to the native default
// of its declared framework.
#[test]
fn filter_selects_one_service_with_default_command() {
    let mut data = entry("fks_data");
    data.framework = Some("axum".to_string());
    let web = entry("fks_web");
    let auth = entry("fks_auth");
    let configs = extract_test_configs(&vec![data, web, auth], Some("fks_data"));
    assert_eq!(configs.len(), 1);
    assert_eq!(configs[0].name, "fks_data");
    assert_eq!(configs[0].path, "services/fks_data");
    assert_eq!(configs[0].test_command, "cargo test --workspace --all-targets");
    assert_eq!(configs[0].framework, "axum");
}

#[test]
fn no_filter_selects_everything_in_order() {
    let configs = extract_test_configs(&vec![entry("fks_a"), entry("fks_b")], None);
    assert_eq!(configs.len(), 2);
    assert_eq!(configs[0].name, "fks_a");
    assert_eq!(configs[1].name, "fks_b");
    assert_eq!(
        configs[0].test_command,
        "pytest -n auto --cov=src --cov-report=term-missing"
    );
}

#[test]
fn explicit_command_overrides_default() {
    let mut e = entry("fks_x");
    e.framework = Some("axum".to_string());
    e.test_command = Some("make check".to_string());
    let c = build_test_config(&e);
    assert_eq!(c.test_command, "make check");
}

fn config_with_deps(name: &str, deps: &[&str]) -> ServiceTestConfig {
    ServiceTestConfig {
        name: name.to_string(),
        path: format!("services/{}", name),
        test_command: "pytest".to_string(),
        test_dependencies: deps.iter().map(|d| d.to_string()).collect(),
        requires_gpu: false,
        framework: "fastapi".to_string(),
    }
}

// With no dependencies declared anywhere, the coordinator reports an
// empty set.
#[test]
fn empty_dependency_sets_union_to_empty() {
    let configs = vec![config_with_deps("a", &[]), config_with_deps("b", &[])];
    assert_eq!(dependency_union(&configs), Vec::<String>::new());
}

#[test]
fn dependency_union_deduplicates() {
    let configs = vec![
        config_with_deps("a", &["postgres", "redis"]),
        config_with_deps("b", &["redis", "kafka"]),
        config_with_deps("c", &[]),
    ];
    let union = dependency_union(&configs);
    assert_eq!(union, vec!["postgres", "redis", "kafka"]);
}

#[test]
fn missing_directory_rejects_run() {
    let c = config_with_deps("fks_data", &[]);
    match plan_service_test(&c, false) {
        TestPlan::Reject(t) => {
            assert!(!t.success);
            assert_eq!(t.service, "fks_data");
            assert_eq!(t.stderr, "Service directory not found: \"services/fks_data\"");
            assert_eq!(t.exit_code, None);
        },
        TestPlan::Launch { .. } => panic!("expected a rejection"),
    }
}

#[test]
fn empty_command_rejects_run() {
    let mut c = config_with_deps("fks_data", &[]);
    c.test_command = "   ".to_string();
    match plan_service_test(&c, true) {
        TestPlan::Reject(t) => {
            assert!(!t.success);
            assert_eq!(t.stderr, "Empty test command");
        },
        TestPlan::Launch { .. } => panic!("expected a rejection"),
    }
}

#[test]
fn command_splits_into_program_and_args() {
    let mut c = config_with_deps("fks_data", &[]);
    c.test_command = "cargo test --workspace --all-targets".to_string();
    match plan_service_test(&c, true) {
        TestPlan::Launch { program, args } => {
            assert_eq!(program, "cargo");
            assert_eq!(args, vec!["test", "--workspace", "--all-targets"]);
        },
        TestPlan::Reject(_) => panic!("expected a launch"),
    }
}

// Exit status zero is the sole success criterion.
#[test]
fn exit_status_zero_is_success() {
    let name = "fks_data".to_string();
    let ok = finish_service_test(
        &name,
        SpawnOutcome::Exited {
            exit_code: Some(0),
            stdout: "all fine".to_string(),
            stderr: String::new(),
        },
        1500,
    );
    assert!(ok.success);
    assert_eq!(ok.exit_code, Some(0));
    assert_eq!(ok.duration_ms, 1500);

    let bad = finish_service_test(
        &name,
        SpawnOutcome::Exited {
            exit_code: Some(2),
            stdout: String::new(),
            stderr: "boom".to_string(),
        },
        100,
    );
    assert!(!bad.success);

    let killed = finish_service_test(
        &name,
        SpawnOutcome::Exited { exit_code: None, stdout: String::new(), stderr: String::new() },
        100,
    );
    assert!(!killed.success);

    let spawn = finish_service_test(&name, SpawnOutcome::SpawnFailed("not found".to_string()), 3);
    assert!(!spawn.success);
    assert_eq!(spawn.stderr, "Failed to execute test command: not found");
}

#[test]
fn summarize_counts_passed_and_failed() {
    let mk = |ok: bool| TestResult {
        service: "s".to_string(),
        success: ok,
        duration_ms: 1,
        stdout: String::new(),
        stderr: String::new(),
        exit_code: Some(if ok { 0 } else { 1 }),
    };
    let (passed, failed) = summarize_tests(&vec![mk(true), mk(false), mk(true)]);
    assert_eq!((passed, failed), (2, 1));
}

#[test]
fn stderr_preview_takes_three_lines() {
    let text = "first\nsecond\nthird\nfourth\nfifth";
    assert_eq!(stderr_preview(text, 3), "first\nsecond\nthird");
    assert_eq!(stderr_preview("only", 3), "only");
    assert_eq!(stderr_preview("", 3), "");
}

#[test]
fn runsh_menu_and_validation() {
    let ex = RunShExecutor::new("/app/run.sh".to_string());
    assert_eq!(ex.runsh_path(), "/app/run.sh");
    let allowed = ex.get_allowed_commands();
    assert_eq!(allowed.len(), 11);
    assert_eq!(allowed[0], "1");
    assert_eq!(allowed[10], "11");

    let bad = RunShCommand {
        command: "12".to_string(),
        args: Vec::new(),
        timeout_seconds: None,
    };
    match ex.prepare_execution(&bad) {
        Err(e @ RunShError::CommandNotAllowed(_)) => {
            assert_eq!(
                e.describe(),
                "Command '12' is not allowed. Allowed commands: [\"1\", \"2\", \"3\", \"4\", \"5\", \"6\", \"7\", \"8\", \"9\", \"10\", \"11\"]"
            );
        },
        _ => panic!("expected the command to be refused"),
    }
}

#[test]
fn runsh_input_and_timeout() {
    let ex = RunShExecutor::new("/app/run.sh".to_string());
    let plain = RunShCommand {
        command: "6".to_string(),
        args: Vec::new(),
        timeout_seconds: None,
    };
    let (input, timeout) = ex.prepare_execution(&plain).expect("command is on the menu");
    assert_eq!(input, "6\na\n");
    assert_eq!(timeout, 300);

    let with_args = RunShCommand {
        command: "3".to_string(),
        args: vec!["s".to_string(), "fks_data".to_string()],
        timeout_seconds: Some(60),
    };
    let (input2, timeout2) = ex.prepare_execution(&with_args).expect("command is on the menu");
    assert_eq!(input2, "3\ns\nfks_data\n");
    assert_eq!(timeout2, 60);
}

#[test]
fn runsh_conclusions() {
    let done = conclude_execution(
        RunShOutcome::Finished {
            exit_code: Some(0),
            stdout: "menu done".to_string(),
            stderr: String::new(),
        },
        300,
        1234,
    );
    let resp: RunShResponse = done.expect("finished runs yield a response");
    assert!(resp.success);
    assert_eq!(resp.duration_ms, 1234);

    let failed = conclude_execution(
        RunShOutcome::Finished {
            exit_code: Some(3),
            stdout: String::new(),
            stderr: String::new(),
        },
        300,
        10,
    );
    assert!(!failed.expect("finished runs yield a response").success);

    match conclude_execution(RunShOutcome::TimedOut, 300, 300000) {
        Err(e @ RunShError::TimedOut(_)) => {
            assert_eq!(e.describe(), "Command timed out after 300 seconds");
        },
        _ => panic!("expected a timeout error"),
    }

    match conclude_execution(RunShOutcome::LaunchFailed("no shell".to_string()), 300, 1) {
        Err(e @ RunShError::ExecutionFailed(_)) => {
            assert_eq!(e.describe(), "Command execution failed: no shell");
        },
        _ => panic!("expected an execution error"),
    }
}

#[test]
fn parsing_ports_and_flags() {
    assert_eq!(parse_u16("8010"), Some(8010));
    assert_eq!(parse_u16("+123"), Some(123));
    assert_eq!(parse_u16("0"), Some(0));
    assert_eq!(parse_u16("65535"), Some(65535));
    assert_eq!(parse_u16("65536"), None);
    assert_eq!(parse_u16(""), None);
    assert_eq!(parse_u16("+"), None);
    assert_eq!(parse_u16("80a0"), None);
    assert_eq!(parse_u16("999999999"), None);

    assert_eq!(parse_bool("true"), Some(true));
    assert_eq!(parse_bool("false"), Some(false));
    assert_eq!(parse_bool("TRUE"), None);
    assert_eq!(parse_bool(""), None);
}

#[test]
fn app_config_defaults() {
    let c = AppConfig::from_env(None, None, None, None, None, None, None, None);
    assert_eq!(c.service_name, "fks_main");
    assert_eq!(c.service_port, 8010);
    assert_eq!(c.monitor_url, "http://fks-monitor:8009");
    assert_eq!(c.k8s_namespace, "fks-trading");
    assert_eq!(c.domain, "fkstrading.xyz");
    assert!(!c.tls_enabled);
    assert_eq!(c.cert_path, None);
    assert_eq!(c.key_path, None);
}

#[test]
fn app_config_from_values() {
    let c = AppConfig::from_env(
        Some("fks_other".to_string()),
        Some("9000".to_string()),
        Some("http://monitor:1".to_string()),
        Some("ns".to_string()),
        Some("example.org".to_string()),
        Some("true".to_string()),
        Some("/tls/cert.pem".to_string()),
        None,
    );
    assert_eq!(c.service_name, "fks_other");
    assert_eq!(c.service_port, 9000);
    assert!(c.tls_enabled);
    assert_eq!(c.cert_path, Some("/tls/cert.pem".to_string()));

    let fallback = AppConfig::from_env(
        None,
        Some("not a port".to_string()),
        None,
        None,
        None,
        Some("yes".to_string()),
        None,
        None,
    );
    assert_eq!(fallback.service_port, 8010);
    assert!(!fallback.tls_enabled);
}

fn base_service() -> ServiceConfig {
    ServiceConfig::with_defaults("fks_api".to_string(), Some(8001), None, None, None)
}

fn config_of(service: ServiceConfig) -> FKSConfig {
    FKSConfig {
        service,
        database: None,
        redis: None,
        api: None,
        auth: None,
        monitoring: None,
        paths: None,
        features: None,
    }
}

#[test]
fn section_defaults() {
    let s = base_service();
    assert_eq!(s.host, "0.0.0.0");
    assert_eq!(s.environment, "development");
    assert_eq!(s.log_level, "INFO");

    let d = DatabaseConfig::with_defaults(None, None, None, None, None, None, None);
    assert_eq!(d.host, "localhost");
    assert_eq!(d.port, 5432);
    assert_eq!(d.pool_size, 10);
    assert_eq!(d.max_overflow, 20);

    let r = RedisConfig::with_defaults(None, None, None, None, None);
    assert_eq!(r.port, 6379);
    assert_eq!(r.db, 0);
    assert!(r.decode_responses);

    let a = APIConfig::with_defaults(None, None, None, None);
    assert_eq!(a.timeout, 30);
    assert_eq!(a.retry_attempts, 3);
    assert_eq!(a.retry_delay, 1);

    let auth = AuthConfig::with_defaults(None, None, None);
    assert_eq!(auth.token_expiry, 3600);
    assert_eq!(auth.algorithm, "HS256");

    let m = MonitoringConfig::with_defaults(None, None, None);
    assert!(m.enabled);
    assert_eq!(m.prometheus_port, 9090);
    assert_eq!(m.health_check_interval, 30);

    let p = PathsConfig::with_defaults(None, None, None, None);
    assert_eq!(p.data_dir, "./data");
    assert_eq!(p.logs_dir, "./logs");
    assert_eq!(p.cache_dir, "./cache");
    assert_eq!(p.models_dir, "./models");
}

#[test]
fn validation_accepts_good_config() {
    assert!(config_of(base_service()).validate().is_ok());
}

#[test]
fn validation_rejects_bad_name() {
    let mut s = base_service();
    s.name = "api".to_string();
    match config_of(s).validate() {
        Err(ConfigError::ValidationError(m)) => {
            assert_eq!(m, "Service name must start with 'fks_'")
        },
        _ => panic!("expected a validation error"),
    }
}

#[test]
fn validation_rejects_low_port() {
    let mut s = base_service();
    s.port = 80;
    match config_of(s).validate() {
        Err(ConfigError::ValidationError(m)) => {
            assert_eq!(m, "Service port must be between 1024 and 65535")
        },
        _ => panic!("expected a validation error"),
    }
}

#[test]
fn validation_rejects_unknown_environment() {
    let mut s = base_service();
    s.environment = "prod".to_string();
    match config_of(s).validate() {
        Err(ConfigError::ValidationError(m)) => {
            assert_eq!(
                m,
                "Invalid environment: prod. Must be one of: [\"development\", \"staging\", \"production\", \"test\"]"
            )
        },
        _ => panic!("expected a validation error"),
    }
}

#[test]
fn validation_rejects_unknown_log_level() {
    let mut s = base_service();
    s.log_level = "verbose".to_string();
    match config_of(s).validate() {
        Err(ConfigError::ValidationError(m)) => {
            assert_eq!(
                m,
                "Invalid log level: verbose. Must be one of: [\"DEBUG\", \"INFO\", \"WARNING\", \"ERROR\", \"CRITICAL\"]"
            )
        },
        _ => panic!("expected a validation error"),
    }
}

#[test]
fn config_error_descriptions() {
    assert_eq!(ConfigError::FileError("gone".to_string()).describe(), "File error: gone");
    assert_eq!(ConfigError::ParseError("bad".to_string()).describe(), "Parse error: bad");
    assert_eq!(ConfigError::Other("misc".to_string()).describe(), "Error: misc");
}
