use fks_main::aggregate::{aggregate, sort_by_number};
use fks_main::check::{CheckKind, CheckResult, check_number, description, hard_fail};
use fks_main::probes::{
    classify_containers, classify_daemon, classify_env_vars, classify_git_clean, classify_gpu,
    classify_metrics_endpoints, classify_port_conflicts, classify_registry_check, classify_smoke,
    classify_service_health, health_unit_message, metrics_unit_message, ports_in_use,
    registry_failure_result, required_containers, required_env_vars, smoke_chain_steps,
    unit_is_ok, CommandOutcome, GitStatusOutcome, ListingOutcome, MetricsOutcome, MetricsReport,
    PortScanOutcome, ProbeOutcome, ProbeReport,
};
use fks_main::registry::{RegistryEntry, RegistryError};

fn entry(name: &str) -> RegistryEntry {
    RegistryEntry {
        name: name.to_string(),
        health_url: None,
        base_url: None,
        metrics_url: None,
        port: None,
        port_docker: None,
        framework: None,
        test_command: None,
        test_dependencies: Vec::new(),
        requires_gpu: false,
    }
}

#[test]
fn severity_policy_table() {
    assert!(hard_fail(CheckKind::Daemon));
    assert!(!hard_fail(CheckKind::PortConflicts));
    assert!(hard_fail(CheckKind::Containers));
    assert!(hard_fail(CheckKind::RegistryValidity));
    assert!(!hard_fail(CheckKind::GitClean));
    assert!(!hard_fail(CheckKind::EnvVars));
    assert!(!hard_fail(CheckKind::Gpu));
    assert!(hard_fail(CheckKind::ServiceHealth));
    assert!(hard_fail(CheckKind::SmokeChain));
    assert!(hard_fail(CheckKind::MetricsShape));
}

#[test]
fn check_numbers_and_descriptions() {
    assert_eq!(check_number(CheckKind::Daemon), 1);
    assert_eq!(check_number(CheckKind::PortConflicts), 2);
    assert_eq!(check_number(CheckKind::Containers), 4);
    assert_eq!(check_number(CheckKind::RegistryValidity), 5);
    assert_eq!(check_number(CheckKind::GitClean), 7);
    assert_eq!(check_number(CheckKind::EnvVars), 8);
    assert_eq!(check_number(CheckKind::Gpu), 9);
    assert_eq!(check_number(CheckKind::ServiceHealth), 10);
    assert_eq!(check_number(CheckKind::SmokeChain), 11);
    assert_eq!(check_number(CheckKind::MetricsShape), 12);
    assert_eq!(description(CheckKind::Daemon), "Docker daemon");
    assert_eq!(description(CheckKind::MetricsShape), "Metrics endpoints validation");
}

#[test]
fn daemon_check_classification() {
    let ok = classify_daemon(&CommandOutcome::Exited { success: true }, 12);
    assert!(ok.ok);
    assert_eq!(ok.number, 1);
    assert_eq!(ok.message, "Docker daemon is running and accessible");
    assert_eq!(ok.duration_ms, 12);

    let bad = classify_daemon(&CommandOutcome::Exited { success: false }, 3);
    assert!(!bad.ok);
    assert_eq!(bad.message, "Docker daemon is not running or not accessible");

    let err = classify_daemon(&CommandOutcome::SpawnFailed("no such file".to_string()), 1);
    assert!(!err.ok);
    assert_eq!(err.message, "Failed to execute docker info: no such file");
}

#[test]
fn port_scan_finds_listening_ports() {
    let table = "LISTEN 0 128 0.0.0.0:8000 ...\nLISTEN 0 128 127.0.0.1:9090 ...";
    let conflicts = ports_in_use(&vec![8000, 8001, 9090], table);
    assert_eq!(conflicts, vec![8000, 9090]);
}

// Advisory checks always yield an effective pass, whatever they found.
#[test]
fn advisory_checks_always_pass() {
    let ports = classify_port_conflicts(&PortScanOutcome::Scanned { checked: 4, conflicts: 3 }, 5);
    assert!(ports.ok);
    assert!(!ports.raw_ok);
    assert_eq!(ports.message, "Ports in use (expected if services running): 3 ports");

    let ports_err =
        classify_port_conflicts(&PortScanOutcome::RegistryUnavailable("gone".to_string()), 5);
    assert!(ports_err.ok);
    assert_eq!(ports_err.message, "Failed to load service registry: gone");

    let dirty = classify_git_clean(&GitStatusOutcome::DirtyTree, 8);
    assert!(dirty.ok);
    assert_eq!(dirty.message, "Uncommitted changes detected (warning only)");

    let no_repo = classify_git_clean(&GitStatusOutcome::CommandError, 8);
    assert!(no_repo.ok);
    assert_eq!(no_repo.message, "Not in a git repository (skipped)");

    let missing = classify_env_vars(&vec!["MONITOR_URL".to_string()], 2);
    assert!(missing.ok);
    assert_eq!(missing.message, "Missing variables (may be in .env): MONITOR_URL");

    let no_gpu = classify_gpu(true, false, 2);
    assert!(no_gpu.ok);
    assert_eq!(no_gpu.message, "GPU not available (warning only)");
}

#[test]
fn port_conflict_clean_message() {
    let none = classify_port_conflicts(&PortScanOutcome::Scanned { checked: 7, conflicts: 0 }, 5);
    assert!(none.ok);
    assert!(none.raw_ok);
    assert_eq!(none.message, "No unexpected conflicts (checked 7 ports)");
}

#[test]
fn container_check_classification() {
    let req = required_containers();
    assert_eq!(
        req,
        vec!["fks_web_db", "fks_auth_db", "fks_data_db", "fks_web_redis", "fks_data_redis"]
    );

    let all = classify_containers(
        &ListingOutcome::Names(vec![
            "app_fks_web_db_1".to_string(),
            "fks_auth_db".to_string(),
            "fks_data_db".to_string(),
            "fks_web_redis".to_string(),
            "fks_data_redis_2".to_string(),
        ]),
        9,
    );
    assert!(all.ok);
    assert_eq!(all.message, "All 5 infrastructure containers running");

    let some = classify_containers(
        &ListingOutcome::Names(vec!["fks_web_db".to_string(), "fks_data_db".to_string()]),
        9,
    );
    assert!(!some.ok);
    assert_eq!(
        some.message,
        "Missing containers: fks_auth_db, fks_web_redis, fks_data_redis"
    );

    let failed = classify_containers(&ListingOutcome::ListFailed, 9);
    assert!(!failed.ok);
    assert_eq!(failed.message, "Failed to list Docker containers");

    let spawn = classify_containers(&ListingOutcome::SpawnFailed("denied".to_string()), 9);
    assert!(!spawn.ok);
    assert_eq!(spawn.message, "Failed to check containers: denied");
}

#[test]
fn registry_check_classification() {
    let ok = classify_registry_check(&Ok(vec![entry("a"), entry("b"), entry("c")]), 4);
    assert!(ok.ok);
    assert_eq!(ok.message, "Valid registry with 3 services");

    let not_found = classify_registry_check(&Err(RegistryError::RegistryNotFound), 4);
    assert!(!not_found.ok);
    assert_eq!(
        not_found.message,
        "Invalid registry: Service registry not found in any expected location"
    );

    let parse = classify_registry_check(
        &Err(RegistryError::RegistryParseError("bad json".to_string())),
        4,
    );
    assert!(!parse.ok);
    assert_eq!(parse.message, "Invalid registry: bad json");
}

#[test]
fn env_and_gpu_pass_cases() {
    assert_eq!(required_env_vars(), vec!["MONITOR_URL"]);
    let all = classify_env_vars(&Vec::new(), 1);
    assert!(all.ok && all.raw_ok);
    assert_eq!(all.message, "All required environment variables present");

    let gpu = classify_gpu(true, true, 1);
    assert!(gpu.ok && gpu.raw_ok);
    assert_eq!(gpu.message, "GPU available");

    let no_reg = classify_gpu(false, true, 1);
    assert!(no_reg.ok && !no_reg.raw_ok);
    assert_eq!(no_reg.message, "Could not check GPU requirements");
}

fn probe(name: &str, outcome: ProbeOutcome) -> ProbeReport {
    ProbeReport { name: name.to_string(), outcome, duration_ms: 40 }
}

// Scenario: three services, all health probes succeeding.
#[test]
fn three_services_all_healthy() {
    let reports = vec![
        probe("fks_api", ProbeOutcome::Success),
        probe("fks_data", ProbeOutcome::Success),
        probe("fks_auth", ProbeOutcome::Success),
    ];
    let r = classify_service_health(&reports, 900);
    assert!(r.ok);
    assert_eq!(r.number, 10);
    assert_eq!(r.message, "All 3 services healthy");
}

// Scenario: three services, one health probe timing out; exactly that
// service is reported unhealthy and the others are unaffected.
#[test]
fn one_service_timing_out() {
    let reports = vec![
        probe("fks_api", ProbeOutcome::Success),
        probe("fks_data", ProbeOutcome::TimedOut),
        probe("fks_auth", ProbeOutcome::Success),
    ];
    let r = classify_service_health(&reports, 5000);
    assert!(!r.ok);
    assert_eq!(r.message, "2/3 healthy. Unhealthy: fks_data");
}

// A unit's classification depends on its own outcome alone: flipping one
// unit leaves every sibling's classification unchanged.
#[test]
fn sibling_units_unaffected_by_one_failure() {
    let a = vec![
        probe("fks_api", ProbeOutcome::Success),
        probe("fks_data", ProbeOutcome::Success),
        probe("fks_auth", ProbeOutcome::HttpStatus(500)),
    ];
    let b = vec![
        probe("fks_api", ProbeOutcome::Success),
        probe("fks_data", ProbeOutcome::TimedOut),
        probe("fks_auth", ProbeOutcome::HttpStatus(500)),
    ];
    for j in [0usize, 2] {
        assert_eq!(unit_is_ok(&a[j].outcome), unit_is_ok(&b[j].outcome));
    }
    let ra = classify_service_health(&a, 100);
    let rb = classify_service_health(&b, 100);
    assert!(!ra.ok && !rb.ok);
    assert_eq!(ra.message, "2/3 healthy. Unhealthy: fks_auth");
    assert_eq!(rb.message, "1/3 healthy. Unhealthy: fks_data, fks_auth");
}

#[test]
fn health_empty_registry_fails() {
    let r = classify_service_health(&Vec::new(), 1);
    assert!(!r.ok);
    assert_eq!(r.message, "No services found in registry");
}

#[test]
fn health_unit_messages() {
    assert_eq!(health_unit_message(&ProbeOutcome::Success, 41), "Healthy (41ms)");
    assert_eq!(health_unit_message(&ProbeOutcome::HttpStatus(503), 10), "HTTP 503 (10ms)");
    assert_eq!(
        health_unit_message(&ProbeOutcome::TransportError("refused".to_string()), 7),
        "Request failed: refused (7ms)"
    );
    assert_eq!(health_unit_message(&ProbeOutcome::TimedOut, 5002), "Timeout after 5s (5002ms)");
}

#[test]
fn smoke_chain_fixed_steps() {
    let steps = smoke_chain_steps();
    assert_eq!(steps.len(), 4);
    assert_eq!(steps[0].0, "fks_api");
    assert_eq!(steps[0].1, "http://localhost:8001/health");
    assert_eq!(steps[3].0, "fks_api → fks_data integration");
    assert_eq!(steps[3].1, "http://localhost:8001/");
}

#[test]
fn smoke_chain_classification() {
    let pass = classify_smoke(
        &vec![
            ProbeOutcome::Success,
            ProbeOutcome::Success,
            ProbeOutcome::Success,
            ProbeOutcome::HttpStatus(302),
        ],
        800,
    );
    assert!(pass.ok);
    assert_eq!(
        pass.message,
        "Chain: fks_api → OK | fks_data → OK | fks_auth → OK | fks_api → fks_data integration → HTTP 302"
    );

    let fail = classify_smoke(
        &vec![
            ProbeOutcome::Success,
            ProbeOutcome::TimedOut,
            ProbeOutcome::Success,
            ProbeOutcome::TransportError("connection refused".to_string()),
        ],
        800,
    );
    assert!(!fail.ok);
    assert_eq!(
        fail.message,
        "Chain: fks_api → OK | fks_data → FAIL | fks_auth → OK | fks_api → fks_data integration → FAIL: connection refused"
    );
}

fn metrics(name: &str, outcome: MetricsOutcome) -> MetricsReport {
    MetricsReport { name: name.to_string(), outcome, duration_ms: 20 }
}

#[test]
fn metrics_check_classification() {
    let good = "# HELP fks_build_info Build information\nfks_build_info{service=\"x\"} 1";
    let all = classify_metrics_endpoints(
        &vec![
            metrics("fks_api", MetricsOutcome::Body(good.to_string())),
            metrics("fks_data", MetricsOutcome::Body(good.to_string())),
        ],
        50,
    );
    assert!(all.ok);
    assert_eq!(all.message, "All 2 services expose valid metrics");

    let mixed = classify_metrics_endpoints(
        &vec![
            metrics("fks_api", MetricsOutcome::Body(good.to_string())),
            metrics("fks_data", MetricsOutcome::Body("no marker here".to_string())),
            metrics("fks_web", MetricsOutcome::HttpStatus(404)),
        ],
        50,
    );
    assert!(!mixed.ok);
    assert_eq!(
        mixed.message,
        "1/3 valid. Invalid: fks_data (Missing fks_build_info metric (20ms)), fks_web (HTTP 404 (20ms))"
    );

    let none = classify_metrics_endpoints(&Vec::new(), 50);
    assert!(!none.ok);
    assert_eq!(none.message, "No services found in registry");
}

#[test]
fn metrics_unit_messages() {
    assert_eq!(
        metrics_unit_message(&MetricsOutcome::Body("fks_build_info 1".to_string()), 30),
        "Valid metrics (30ms)"
    );
    assert_eq!(
        metrics_unit_message(&MetricsOutcome::Body("nothing".to_string()), 30),
        "Missing fks_build_info metric (30ms)"
    );
    assert_eq!(metrics_unit_message(&MetricsOutcome::TimedOut, 5001), "Timeout after 5s (5001ms)");
}

#[test]
fn registry_failure_results() {
    let health = registry_failure_result(
        CheckKind::ServiceHealth,
        &RegistryError::RegistryNotFound,
        3,
    );
    assert!(!health.ok);
    assert_eq!(health.number, 10);
    assert_eq!(
        health.message,
        "Failed to load registry: Service registry not found in any expected location"
    );
}

fn quick_result(number: u64, ok: bool) -> CheckResult {
    CheckResult {
        number,
        description: format!("check {}", number),
        raw_ok: ok,
        ok,
        message: String::new(),
        duration_ms: number * 10,
    }
}

#[test]
fn aggregate_counts_failures() {
    let results = vec![
        quick_result(1, true),
        quick_result(4, false),
        quick_result(10, true),
        quick_result(12, false),
    ];
    let v = aggregate(&results);
    assert_eq!(v.total, 4);
    assert_eq!(v.failed, 2);
    assert!(!v.ok);

    let all = vec![quick_result(1, true), quick_result(2, true)];
    let va = aggregate(&all);
    assert_eq!(va.failed, 0);
    assert!(va.ok);
}

// Classification is a function of the findings alone: running the same
// checks again with different timings yields the same verdict.
#[test]
fn repeated_run_same_verdict() {
    let first = vec![
        classify_daemon(&CommandOutcome::Exited { success: true }, 120),
        classify_git_clean(&GitStatusOutcome::DirtyTree, 15),
    ];
    let second = vec![
        classify_daemon(&CommandOutcome::Exited { success: true }, 480),
        classify_git_clean(&GitStatusOutcome::DirtyTree, 92),
    ];
    let v1 = aggregate(&first);
    let v2 = aggregate(&second);
    assert_eq!(v1.failed, v2.failed);
    assert_eq!(v1.ok, v2.ok);
    for (a, b) in first.iter().zip(second.iter()) {
        assert_eq!(a.ok, b.ok);
    }
}

#[test]
fn sort_orders_by_display_number() {
    let results = vec![quick_result(12, true), quick_result(1, false), quick_result(7, true)];
    let sorted = sort_by_number(results);
    let numbers: Vec<u64> = sorted.iter().map(|r| r.number).collect();
    assert_eq!(numbers, vec![1, 7, 12]);
    assert!(!sorted[0].ok);
}

#[test]
fn format_seconds_two_decimals() {
    assert_eq!(fks_main::aggregate::format_seconds(1234), "1.23");
    assert_eq!(fks_main::aggregate::format_seconds(5), "0.00");
    assert_eq!(fks_main::aggregate::format_seconds(1005), "1.00");
    assert_eq!(fks_main::aggregate::format_seconds(999), "0.99");
    assert_eq!(fks_main::aggregate::format_seconds(60120), "60.12");
}
