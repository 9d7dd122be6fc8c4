//! The check catalog: kinds, display numbers, descriptions, and the
//! severity policy that separates hard failures from advisory warnings.

use vstd::prelude::*;

verus! {

/// The fixed, ordered set of readiness checks.
#[derive(Clone, Copy, PartialEq, Eq, Structural, Debug)]
pub enum CheckKind {
    /// Container runtime daemon reachable.
    Daemon,
    /// Declared service ports already occupied locally.
    PortConflicts,
    /// Required infrastructure containers running.
    Containers,
    /// Service registry present and well formed.
    RegistryValidity,
    /// Git working tree clean.
    GitClean,
    /// Required environment variables present.
    EnvVars,
    /// GPU driver probe tool available.
    Gpu,
    /// Every registered service answers its health URL.
    ServiceHealth,
    /// Fixed smoke chain of inter-service calls.
    SmokeChain,
    /// Every metrics endpoint exposes the build-info marker.
    MetricsShape,
}

/// Severity policy: a hard-failing check makes the whole run fail, an
/// advisory check is reported but never blocks.  This split is deliberate
/// and fixed: port conflicts, a dirty git tree, missing environment
/// variables and an absent GPU are expected in local development.
pub open spec fn spec_hard_fail(kind: CheckKind) -> bool {
    match kind {
        CheckKind::Daemon => true,
        CheckKind::PortConflicts => false,
        CheckKind::Containers => true,
        CheckKind::RegistryValidity => true,
        CheckKind::GitClean => false,
        CheckKind::EnvVars => false,
        CheckKind::Gpu => false,
        CheckKind::ServiceHealth => true,
        CheckKind::SmokeChain => true,
        CheckKind::MetricsShape => true,
    }
}

#[verifier::when_used_as_spec(spec_hard_fail)]
pub fn hard_fail(kind: CheckKind) -> (r: bool)
    ensures
        r == spec_hard_fail(kind),
{
    match kind {
        CheckKind::Daemon => true,
        CheckKind::PortConflicts => false,
        CheckKind::Containers => true,
        CheckKind::RegistryValidity => true,
        CheckKind::GitClean => false,
        CheckKind::EnvVars => false,
        CheckKind::Gpu => false,
        CheckKind::ServiceHealth => true,
        CheckKind::SmokeChain => true,
        CheckKind::MetricsShape => true,
    }
}

/// Stable display number of each check.  The gaps (3 and 6) are reserved
/// slots of the catalog and are kept so that reports stay comparable.
pub open spec fn spec_check_number(kind: CheckKind) -> u64 {
    match kind {
        CheckKind::Daemon => 1,
        CheckKind::PortConflicts => 2,
        CheckKind::Containers => 4,
        CheckKind::RegistryValidity => 5,
        CheckKind::GitClean => 7,
        CheckKind::EnvVars => 8,
        CheckKind::Gpu => 9,
        CheckKind::ServiceHealth => 10,
        CheckKind::SmokeChain => 11,
        CheckKind::MetricsShape => 12,
    }
}

#[verifier::when_used_as_spec(spec_check_number)]
pub fn check_number(kind: CheckKind) -> (r: u64)
    ensures
        r == spec_check_number(kind),
{
    match kind {
        CheckKind::Daemon => 1,
        CheckKind::PortConflicts => 2,
        CheckKind::Containers => 4,
        CheckKind::RegistryValidity => 5,
        CheckKind::GitClean => 7,
        CheckKind::EnvVars => 8,
        CheckKind::Gpu => 9,
        CheckKind::ServiceHealth => 10,
        CheckKind::SmokeChain => 11,
        CheckKind::MetricsShape => 12,
    }
}

/// Human-readable description of each check.
pub open spec fn spec_description(kind: CheckKind) -> Seq<char> {
    match kind {
        CheckKind::Daemon => "Docker daemon"@,
        CheckKind::PortConflicts => "Port conflicts"@,
        CheckKind::Containers => "Infrastructure containers"@,
        CheckKind::RegistryValidity => "Service registry"@,
        CheckKind::GitClean => "Git working directory"@,
        CheckKind::EnvVars => "Environment variables"@,
        CheckKind::Gpu => "GPU availability"@,
        CheckKind::ServiceHealth => "Service health checks"@,
        CheckKind::SmokeChain => "Smoke integration test"@,
        CheckKind::MetricsShape => "Metrics endpoints validation"@,
    }
}

pub fn description(kind: CheckKind) -> (r: String)
    ensures
        r@ == spec_description(kind),
{
    match kind {
        CheckKind::Daemon => String::from_str("Docker daemon"),
        CheckKind::PortConflicts => String::from_str("Port conflicts"),
        CheckKind::Containers => String::from_str("Infrastructure containers"),
        CheckKind::RegistryValidity => String::from_str("Service registry"),
        CheckKind::GitClean => String::from_str("Git working directory"),
        CheckKind::EnvVars => String::from_str("Environment variables"),
        CheckKind::Gpu => String::from_str("GPU availability"),
        CheckKind::ServiceHealth => String::from_str("Service health checks"),
        CheckKind::SmokeChain => String::from_str("Smoke integration test"),
        CheckKind::MetricsShape => String::from_str("Metrics endpoints validation"),
    }
}

/// The effective outcome of a check: its raw finding where the check is
/// hard-failing, and always a pass where it is advisory.
pub open spec fn spec_effective(kind: CheckKind, raw_ok: bool) -> bool {
    if spec_hard_fail(kind) {
        raw_ok
    } else {
        true
    }
}

/// The result of one check invocation.  `raw_ok` records what the probe
/// found; `ok` is the finding after the severity policy was applied and is
/// the only field the final verdict reads.
#[derive(Clone, Debug)]
pub struct CheckResult {
    pub number: u64,
    pub description: String,
    pub raw_ok: bool,
    pub ok: bool,
    pub message: String,
    pub duration_ms: u64,
}

impl CheckResult {
    /// Record a check's raw finding and apply the severity policy.
    pub fn finish(kind: CheckKind, raw_ok: bool, message: String, duration_ms: u64) -> (r:
        CheckResult)
        ensures
            r.number == spec_check_number(kind),
            r.description@ == spec_description(kind),
            r.raw_ok == raw_ok,
            r.ok == spec_effective(kind, raw_ok),
            r.message == message,
            r.duration_ms == duration_ms,
    {
        let ok = if hard_fail(kind) {
            raw_ok
        } else {
            true
        };
        CheckResult {
            number: check_number(kind),
            description: description(kind),
            raw_ok,
            ok,
            message,
            duration_ms,
        }
    }
}

/// An advisory check always yields an effective pass, whatever its raw
/// finding was.
pub proof fn lemma_advisory_always_ok(kind: CheckKind, raw_ok: bool)
    requires
        !spec_hard_fail(kind),
    ensures
        spec_effective(kind, raw_ok),
{
}

} // verus!
