use fks_main::registry::{
    collect_ports, health_probe_urls, localize_url, metrics_probe_urls, resolve_registry_lookup,
    CandidateOutcome, RegistryEntry, RegistryError,
};
use fks_main::text::{
    contains_str, eq_str, join_strings, replace_all, split_lines, split_ws, starts_with_str,
    u64_to_string,
};

fn entry(name: &str) -> RegistryEntry {
    RegistryEntry {
        name: name.to_string(),
        health_url: None,
        base_url: None,
        metrics_url: None,
        port: None,
        port_docker: None,
        framework: None,
        test_command: None,
        test_dependencies: Vec::new(),
        requires_gpu: false,
    }
}

// Scenario: the registry file is absent from every candidate location.
#[test]
fn registry_absent_everywhere() {
    let r = resolve_registry_lookup(vec![
        CandidateOutcome::Absent,
        CandidateOutcome::Absent,
        CandidateOutcome::Absent,
        CandidateOutcome::Absent,
    ]);
    assert!(matches!(r, Err(RegistryError::RegistryNotFound)));
}

#[test]
fn registry_first_present_decides() {
    let r = resolve_registry_lookup(vec![
        CandidateOutcome::Absent,
        CandidateOutcome::Parsed(vec![entry("fks_api")]),
        CandidateOutcome::Malformed("later candidate".to_string()),
    ]);
    let entries = r.expect("first present candidate parsed");
    assert_eq!(entries.len(), 1);
    assert_eq!(entries[0].name, "fks_api");
}

// A present but malformed registry is a parse error, not a skip: later
// candidates are never consulted.
#[test]
fn registry_malformed_does_not_fall_through() {
    let r = resolve_registry_lookup(vec![
        CandidateOutcome::Absent,
        CandidateOutcome::Malformed("unexpected end of input".to_string()),
        CandidateOutcome::Parsed(vec![entry("fks_api")]),
    ]);
    match r {
        Err(RegistryError::RegistryParseError(m)) => {
            assert_eq!(m, "unexpected end of input")
        },
        _ => panic!("expected a parse error"),
    }
}

#[test]
fn registry_error_descriptions() {
    assert_eq!(
        RegistryError::RegistryNotFound.describe(),
        "Service registry not found in any expected location"
    );
    assert_eq!(RegistryError::RegistryParseError("bad".to_string()).describe(), "bad");
}

#[test]
fn ports_collected_in_declaration_order() {
    let mut a = entry("a");
    a.port = Some(8000);
    a.port_docker = Some(3001);
    let b = entry("b");
    let mut c = entry("c");
    c.port_docker = Some(9090);
    assert_eq!(collect_ports(&vec![a, b, c]), vec![8000, 3001, 9090]);
}

#[test]
fn url_localization() {
    assert_eq!(localize_url("http://fks-api:8001/health"), "http://localhost:api:8001/health");
    assert_eq!(localize_url("http://web:3001/health"), "http://web:8000/health");
    assert_eq!(localize_url("http://analyze:8081/metrics"), "http://analyze:8008/metrics");
    assert_eq!(localize_url("http://localhost:8003/health"), "http://localhost:8003/health");
}

#[test]
fn health_urls_from_registry() {
    let mut a = entry("fks_api");
    a.health_url = Some("http://localhost:8001/health".to_string());
    let mut b = entry("fks_data");
    b.base_url = Some("http://localhost:8003".to_string());
    let c = entry("fks_aux");
    let urls = health_probe_urls(&vec![a, b, c]);
    assert_eq!(urls.len(), 2);
    assert_eq!(urls[0].0, "fks_api");
    assert_eq!(urls[0].1, "http://localhost:8001/health");
    assert_eq!(urls[1].0, "fks_data");
    assert_eq!(urls[1].1, "http://localhost:8003/health");
}

#[test]
fn metrics_urls_from_registry() {
    let mut a = entry("fks_api");
    a.metrics_url = Some("http://localhost:8001/metrics".to_string());
    let mut b = entry("fks_data");
    b.base_url = Some("http://localhost:8003".to_string());
    let mut c = entry("fks_web");
    c.health_url = Some("http://localhost:8000/health".to_string());
    let mut skip = entry("fks_monitor");
    skip.metrics_url = Some("http://localhost:8009/metrics".to_string());
    let none = entry("fks_aux");
    let urls = metrics_probe_urls(&vec![a, b, c, skip, none]);
    assert_eq!(urls.len(), 3);
    assert_eq!(urls[0].1, "http://localhost:8001/metrics");
    assert_eq!(urls[1].1, "http://localhost:8003/metrics");
    assert_eq!(urls[2].1, "http://localhost:8000/metrics");
}

#[test]
fn string_equality_and_search() {
    assert!(eq_str("abc", "abc"));
    assert!(!eq_str("abc", "abd"));
    assert!(!eq_str("abc", "ab"));
    assert!(contains_str("the fks_build_info marker", "fks_build_info"));
    assert!(!contains_str("nothing here", "fks_build_info"));
    assert!(contains_str("x", ""));
    assert!(starts_with_str("fks_data", "fks_"));
    assert!(!starts_with_str("api_fks", "fks_"));
}

#[test]
fn replacement_is_left_to_right_non_overlapping() {
    assert_eq!(replace_all("aaa", "aa", "b"), "ba");
    assert_eq!(replace_all("http://fks-x", "http://fks-", "http://localhost:"), "http://localhost:x");
    assert_eq!(replace_all("none", "xyz", "q"), "none");
    assert_eq!(replace_all(":3001 and :3001", ":3001", ":8000"), ":8000 and :8000");
}

#[test]
fn decimal_rendering() {
    assert_eq!(u64_to_string(0), "0");
    assert_eq!(u64_to_string(7), "7");
    assert_eq!(u64_to_string(65535), "65535");
    assert_eq!(u64_to_string(1000000), "1000000");
}

#[test]
fn joining_strings() {
    let parts: Vec<String> = vec!["a".to_string(), "b".to_string(), "c".to_string()];
    assert_eq!(join_strings(&parts, ", "), "a, b, c");
    assert_eq!(join_strings(&vec!["solo".to_string()], " | "), "solo");
    assert_eq!(join_strings(&Vec::new(), ", "), "");
}

#[test]
fn splitting_on_whitespace() {
    let words = split_ws("cargo  test \t--workspace\n--all-targets ");
    assert_eq!(words, vec!["cargo", "test", "--workspace", "--all-targets"]);
    assert_eq!(split_ws("   "), Vec::<String>::new());
    assert_eq!(split_ws(""), Vec::<String>::new());
    assert_eq!(split_ws("one"), vec!["one"]);
}

#[test]
fn splitting_into_lines() {
    assert_eq!(split_lines("a\nb\nc"), vec!["a", "b", "c"]);
    assert_eq!(split_lines("a\r\nb\n"), vec!["a", "b"]);
    assert_eq!(split_lines("a\n\nb"), vec!["a", "", "b"]);
    assert_eq!(split_lines(""), Vec::<String>::new());
    assert_eq!(split_lines("tail\r"), vec!["tail\r"]);
}
