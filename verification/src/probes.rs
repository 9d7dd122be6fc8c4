//! Classification of probe outcomes into check results.  The probes
//! themselves (process spawns, HTTP requests) run outside the library;
//! each classifier here is a pure function from a probe's outcome to the
//! `CheckResult` the report shows, with the severity policy applied.

use vstd::prelude::*;
use crate::check::{CheckKind, CheckResult, spec_check_number, spec_description, spec_effective};
use crate::registry::{RegistryEntry, RegistryError};
use crate::text::{contains_seq, contains_str, dec_of, join_strings, join_with, u64_to_string};

verus! {

/// Outcome of running an external command for its exit status.
pub enum CommandOutcome {
    /// The command ran; `success` is whether it exited with status zero.
    Exited { success: bool },
    /// The command could not be started; the detail says why.
    SpawnFailed(String),
}

/// Classify the container-runtime daemon probe (an `info` command run on
/// the runtime): a pass exactly when the command exited successfully.
pub fn classify_daemon(outcome: &CommandOutcome, duration_ms: u64) -> (r: CheckResult)
    ensures
        r.number == spec_check_number(CheckKind::Daemon),
        r.description@ == spec_description(CheckKind::Daemon),
        r.duration_ms == duration_ms,
        r.raw_ok == (outcome matches CommandOutcome::Exited { success: true }),
        r.ok == r.raw_ok,
        (match outcome {
            CommandOutcome::Exited { success: true } => r.message@
                == "Docker daemon is running and accessible"@,
            CommandOutcome::Exited { success: false } => r.message@
                == "Docker daemon is not running or not accessible"@,
            CommandOutcome::SpawnFailed(e) => r.message@ == "Failed to execute docker info: "@
                + e@,
        }),
{
    match outcome {
        CommandOutcome::Exited { success: true } => CheckResult::finish(
            CheckKind::Daemon,
            true,
            String::from_str("Docker daemon is running and accessible"),
            duration_ms,
        ),
        CommandOutcome::Exited { success: false } => CheckResult::finish(
            CheckKind::Daemon,
            false,
            String::from_str("Docker daemon is not running or not accessible"),
            duration_ms,
        ),
        CommandOutcome::SpawnFailed(e) => CheckResult::finish(
            CheckKind::Daemon,
            false,
            String::from_str("Failed to execute docker info: ").concat(e.as_str()),
            duration_ms,
        ),
    }
}

/// The declared ports that appear in the listening-socket table, in
/// declaration order.  A port is counted as in use when the table text
/// contains a colon followed by its decimal form.
pub open spec fn conflicting_ports(ports: Seq<u16>, table: Seq<char>) -> Seq<u16>
    decreases ports.len(),
{
    if ports.len() == 0 {
        Seq::empty()
    } else {
        (if contains_seq(table, ":"@ + dec_of(ports[0] as nat)) {
            seq![ports[0]]
        } else {
            Seq::empty()
        }) + conflicting_ports(ports.drop_first(), table)
    }
}

/// Find which declared ports the listening-socket table shows in use.
pub fn ports_in_use(ports: &Vec<u16>, table: &str) -> (r: Vec<u16>)
    ensures
        r@ == conflicting_ports(ports@, table@),
{
    let mut out: Vec<u16> = Vec::new();
    let mut i: usize = 0;
    proof {
        assert(ports@.skip(0) =~= ports@);
        assert(out@ + conflicting_ports(ports@, table@) =~= conflicting_ports(ports@, table@));
    }
    while i < ports.len()
        invariant
            i <= ports.len(),
            conflicting_ports(ports@, table@) == out@ + conflicting_ports(
                ports@.skip(i as int),
                table@,
            ),
        decreases ports.len() - i,
    {
        let ghost t = ports@.skip(i as int);
        let ghost out0 = out@;
        proof {
            assert(t[0] == ports@[i as int]);
            assert(t.drop_first() =~= ports@.skip(i + 1));
        }
        let p = ports[i];
        let needle = String::from_str(":").concat(u64_to_string(p as u64).as_str());
        proof {
            reveal_strlit(":");
            assert(needle@ == ":"@ + dec_of(p as nat));
        }
        if contains_str(table, needle.as_str()) {
            out.push(p);
        }
        proof {
            assert(out@ =~= out0 + (if contains_seq(table@, ":"@ + dec_of(t[0] as nat)) {
                seq![t[0]]
            } else {
                Seq::<u16>::empty()
            }));
            assert(out0 + ((if contains_seq(table@, ":"@ + dec_of(t[0] as nat)) {
                seq![t[0]]
            } else {
                Seq::<u16>::empty()
            }) + conflicting_ports(ports@.skip(i + 1), table@)) =~= out@ + conflicting_ports(
                ports@.skip(i + 1),
                table@,
            ));
        }
        i = i + 1;
    }
    proof {
        assert(ports@.skip(ports@.len() as int) =~= Seq::<u16>::empty());
        assert(out@ =~= conflicting_ports(ports@, table@));
    }
    out
}

/// Outcome of the port scan that feeds the port-conflict check.
pub enum PortScanOutcome {
    /// The registry loaded; `checked` ports were declared and `conflicts`
    /// of them are in use locally.
    Scanned { checked: usize, conflicts: usize },
    /// The registry could not be loaded; the detail says why.
    RegistryUnavailable(String),
}

/// Classify the port-conflict check.  The check is advisory: ports in use
/// are expected when the services are already running, so its effective
/// outcome is always a pass, whatever was found.
pub fn classify_port_conflicts(outcome: &PortScanOutcome, duration_ms: u64) -> (r: CheckResult)
    ensures
        r.number == spec_check_number(CheckKind::PortConflicts),
        r.description@ == spec_description(CheckKind::PortConflicts),
        r.duration_ms == duration_ms,
        r.ok == true,
        r.raw_ok == (outcome matches PortScanOutcome::Scanned { checked: _, conflicts: 0 }),
        (match outcome {
            PortScanOutcome::Scanned { checked, conflicts } => {
                if conflicts == 0 {
                    r.message@ == "No unexpected conflicts (checked "@ + dec_of(*checked as nat)
                        + " ports)"@
                } else {
                    r.message@ == "Ports in use (expected if services running): "@ + dec_of(
                        *conflicts as nat,
                    ) + " ports"@
                }
            },
            PortScanOutcome::RegistryUnavailable(e) => r.message@
                == "Failed to load service registry: "@ + e@,
        }),
{
    match outcome {
        PortScanOutcome::Scanned { checked, conflicts } => {
            if *conflicts == 0 {
                let msg = String::from_str("No unexpected conflicts (checked ").concat(
                    u64_to_string(*checked as u64).as_str(),
                ).concat(" ports)");
                CheckResult::finish(CheckKind::PortConflicts, true, msg, duration_ms)
            } else {
                let msg = String::from_str("Ports in use (expected if services running): ").concat(
                    u64_to_string(*conflicts as u64).as_str(),
                ).concat(" ports");
                CheckResult::finish(CheckKind::PortConflicts, false, msg, duration_ms)
            }
        },
        PortScanOutcome::RegistryUnavailable(e) => {
            let msg = String::from_str("Failed to load service registry: ").concat(e.as_str());
            CheckResult::finish(CheckKind::PortConflicts, false, msg, duration_ms)
        },
    }
}

/// Outcome of listing the running containers by name.
pub enum ListingOutcome {
    /// The listing succeeded, one running container name per element.
    Names(Vec<String>),
    /// The listing command ran but did not exit successfully.
    ListFailed,
    /// The listing command could not be started.
    SpawnFailed(String),
}

/// The infrastructure containers that must be running, by name fragment.
pub open spec fn spec_required_containers() -> Seq<Seq<char>> {
    seq![
        "fks_web_db"@,
        "fks_auth_db"@,
        "fks_data_db"@,
        "fks_web_redis"@,
        "fks_data_redis"@,
    ]
}

/// The fixed list of required infrastructure containers.
pub fn required_containers() -> (r: Vec<String>)
    ensures
        r.deep_view() == spec_required_containers(),
{
    let mut v: Vec<String> = Vec::new();
    v.push(String::from_str("fks_web_db"));
    v.push(String::from_str("fks_auth_db"));
    v.push(String::from_str("fks_data_db"));
    v.push(String::from_str("fks_web_redis"));
    v.push(String::from_str("fks_data_redis"));
    proof {
        assert(v.deep_view() =~= spec_required_containers());
    }
    v
}

/// Whether some running container name contains `name` as a substring.
pub open spec fn present_in(name: Seq<char>, running: Seq<Seq<char>>) -> bool {
    exists|j: int| 0 <= j < running.len() && contains_seq(#[trigger] running[j], name)
}

/// Whether any of `running` contains `name` as a substring.
pub fn any_contains(running: &Vec<String>, name: &str) -> (r: bool)
    ensures
        r == present_in(name@, running.deep_view()),
{
    let mut j: usize = 0;
    while j < running.len()
        invariant
            j <= running.len(),
            forall|k: int|
                0 <= k < j ==> !contains_seq(#[trigger] running.deep_view()[k], name@),
        decreases running.len() - j,
    {
        if contains_str(running[j].as_str(), name) {
            proof {
                assert(running.deep_view()[j as int] == running@[j as int]@);
                assert(present_in(name@, running.deep_view()));
            }
            return true;
        }
        proof {
            assert(running.deep_view()[j as int] == running@[j as int]@);
        }
        j = j + 1;
    }
    false
}

/// The required names that no running container name contains, in the
/// required order.
pub open spec fn missing_of(req: Seq<Seq<char>>, running: Seq<Seq<char>>) -> Seq<Seq<char>>
    decreases req.len(),
{
    if req.len() == 0 {
        Seq::empty()
    } else {
        (if present_in(req[0], running) {
            Seq::empty()
        } else {
            seq![req[0]]
        }) + missing_of(req.drop_first(), running)
    }
}

/// Compute the required containers that are not running.
pub fn missing_containers(required: &Vec<String>, running: &Vec<String>) -> (r: Vec<String>)
    ensures
        r.deep_view() == missing_of(required.deep_view(), running.deep_view()),
{
    let mut out: Vec<String> = Vec::new();
    let mut i: usize = 0;
    let ghost req = required.deep_view();
    let ghost run = running.deep_view();
    proof {
        assert(req.skip(0) =~= req);
        assert(out.deep_view() =~= Seq::<Seq<char>>::empty());
        assert(out.deep_view() + missing_of(req, run) =~= missing_of(req, run));
    }
    while i < required.len()
        invariant
            i <= required.len(),
            req == required.deep_view(),
            run == running.deep_view(),
            missing_of(req, run) == out.deep_view() + missing_of(req.skip(i as int), run),
        decreases required.len() - i,
    {
        let ghost t = req.skip(i as int);
        let ghost out0 = out.deep_view();
        proof {
            assert(t[0] == req[i as int]);
            assert(t.drop_first() =~= req.skip(i + 1));
            assert(req[i as int] == required@[i as int]@);
        }
        if !any_contains(running, required[i].as_str()) {
            out.push(required[i].clone());
        }
        proof {
            assert(out.deep_view() =~= out0 + (if present_in(t[0], run) {
                Seq::<Seq<char>>::empty()
            } else {
                seq![t[0]]
            }));
            assert(out0 + ((if present_in(t[0], run) {
                Seq::<Seq<char>>::empty()
            } else {
                seq![t[0]]
            }) + missing_of(req.skip(i + 1), run)) =~= out.deep_view() + missing_of(
                req.skip(i + 1),
                run,
            ));
        }
        i = i + 1;
    }
    proof {
        assert(req.skip(req.len() as int) =~= Seq::<Seq<char>>::empty());
        assert(out.deep_view() =~= missing_of(req, run));
    }
    out
}

/// Classify the infrastructure-container check: a hard failure when any
/// required container (matched by name fragment) is not running, or when
/// the listing itself failed.
pub fn classify_containers(listing: &ListingOutcome, duration_ms: u64) -> (r: CheckResult)
    ensures
        r.number == spec_check_number(CheckKind::Containers),
        r.description@ == spec_description(CheckKind::Containers),
        r.duration_ms == duration_ms,
        r.ok == r.raw_ok,
        (match listing {
            ListingOutcome::Names(running) => {
                let missing = missing_of(spec_required_containers(), running.deep_view());
                &&& r.raw_ok == (missing.len() == 0)
                &&& (missing.len() == 0 ==> r.message@ == "All "@ + dec_of(5)
                    + " infrastructure containers running"@)
                &&& (missing.len() > 0 ==> r.message@ == "Missing containers: "@ + join_with(
                    missing,
                    ", "@,
                ))
            },
            ListingOutcome::ListFailed => r.raw_ok == false && r.message@
                == "Failed to list Docker containers"@,
            ListingOutcome::SpawnFailed(e) => r.raw_ok == false && r.message@
                == "Failed to check containers: "@ + e@,
        }),
{
    match listing {
        ListingOutcome::Names(running) => {
            let required = required_containers();
            let missing = missing_containers(&required, running);
            if missing.len() == 0 {
                proof {
                    assert(missing.deep_view().len() == 0);
                }
                let msg = String::from_str("All ").concat(
                    u64_to_string(required.len() as u64).as_str(),
                ).concat(" infrastructure containers running");
                proof {
                    assert(required.deep_view().len() == 5);
                    assert(required@.len() == 5);
                }
                CheckResult::finish(CheckKind::Containers, true, msg, duration_ms)
            } else {
                proof {
                    assert(missing.deep_view().len() > 0);
                }
                let msg = String::from_str("Missing containers: ").concat(
                    join_strings(&missing, ", ").as_str(),
                );
                CheckResult::finish(CheckKind::Containers, false, msg, duration_ms)
            }
        },
        ListingOutcome::ListFailed => CheckResult::finish(
            CheckKind::Containers,
            false,
            String::from_str("Failed to list Docker containers"),
            duration_ms,
        ),
        ListingOutcome::SpawnFailed(e) => CheckResult::finish(
            CheckKind::Containers,
            false,
            String::from_str("Failed to check containers: ").concat(e.as_str()),
            duration_ms,
        ),
    }
}

/// Classify the registry-validity check from a fresh load of the
/// registry: a pass with the service count, or a hard failure carrying
/// the load error's description.
pub fn classify_registry_check(load: &Result<Vec<RegistryEntry>, RegistryError>, duration_ms: u64)
    -> (r: CheckResult)
    ensures
        r.number == spec_check_number(CheckKind::RegistryValidity),
        r.description@ == spec_description(CheckKind::RegistryValidity),
        r.duration_ms == duration_ms,
        r.ok == r.raw_ok,
        r.raw_ok == (load is Ok),
        (match load {
            Ok(entries) => r.message@ == "Valid registry with "@ + dec_of(entries@.len())
                + " services"@,
            Err(e) => (match e {
                RegistryError::RegistryNotFound => r.message@ == "Invalid registry: "@
                    + "Service registry not found in any expected location"@,
                RegistryError::RegistryParseError(m) => r.message@ == "Invalid registry: "@ + m@,
            }),
        }),
{
    match load {
        Ok(entries) => {
            let msg = String::from_str("Valid registry with ").concat(
                u64_to_string(entries.len() as u64).as_str(),
            ).concat(" services");
            CheckResult::finish(CheckKind::RegistryValidity, true, msg, duration_ms)
        },
        Err(e) => {
            let msg = String::from_str("Invalid registry: ").concat(e.describe().as_str());
            CheckResult::finish(CheckKind::RegistryValidity, false, msg, duration_ms)
        },
    }
}

/// Outcome of the machine-readable working-tree status command.
pub enum GitStatusOutcome {
    /// The command ran and reported nothing to commit.
    CleanTree,
    /// The command ran and reported uncommitted changes.
    DirtyTree,
    /// The command could not be run, as outside a repository.
    CommandError,
}

/// Classify the working-tree check.  Advisory: a dirty tree and a missing
/// repository are both reported and neither blocks the run.
pub fn classify_git_clean(outcome: &GitStatusOutcome, duration_ms: u64) -> (r: CheckResult)
    ensures
        r.number == spec_check_number(CheckKind::GitClean),
        r.description@ == spec_description(CheckKind::GitClean),
        r.duration_ms == duration_ms,
        r.ok == true,
        r.raw_ok == !(outcome is DirtyTree),
        (match outcome {
            GitStatusOutcome::CleanTree => r.message@ == "Working directory is clean"@,
            GitStatusOutcome::DirtyTree => r.message@
                == "Uncommitted changes detected (warning only)"@,
            GitStatusOutcome::CommandError => r.message@ == "Not in a git repository (skipped)"@,
        }),
{
    match outcome {
        GitStatusOutcome::CleanTree => CheckResult::finish(
            CheckKind::GitClean,
            true,
            String::from_str("Working directory is clean"),
            duration_ms,
        ),
        GitStatusOutcome::DirtyTree => CheckResult::finish(
            CheckKind::GitClean,
            false,
            String::from_str("Uncommitted changes detected (warning only)"),
            duration_ms,
        ),
        GitStatusOutcome::CommandError => CheckResult::finish(
            CheckKind::GitClean,
            true,
            String::from_str("Not in a git repository (skipped)"),
            duration_ms,
        ),
    }
}

/// The environment variables the platform expects.
pub open spec fn spec_required_env_vars() -> Seq<Seq<char>> {
    seq!["MONITOR_URL"@]
}

/// The fixed list of required environment variables.
pub fn required_env_vars() -> (r: Vec<String>)
    ensures
        r.deep_view() == spec_required_env_vars(),
{
    let mut v: Vec<String> = Vec::new();
    v.push(String::from_str("MONITOR_URL"));
    proof {
        assert(v.deep_view() =~= spec_required_env_vars());
    }
    v
}

/// Classify the environment-variable check from the list of variables
/// found missing.  Advisory: missing variables may be supplied by a local
/// environment file, so the effective outcome is always a pass.
pub fn classify_env_vars(missing: &Vec<String>, duration_ms: u64) -> (r: CheckResult)
    ensures
        r.number == spec_check_number(CheckKind::EnvVars),
        r.description@ == spec_description(CheckKind::EnvVars),
        r.duration_ms == duration_ms,
        r.ok == true,
        r.raw_ok == (missing@.len() == 0),
        missing@.len() == 0 ==> r.message@ == "All required environment variables present"@,
        missing@.len() > 0 ==> r.message@ == "Missing variables (may be in .env): "@ + join_with(
            missing.deep_view(),
            ", "@,
        ),
{
    if missing.len() == 0 {
        CheckResult::finish(
            CheckKind::EnvVars,
            true,
            String::from_str("All required environment variables present"),
            duration_ms,
        )
    } else {
        let msg = String::from_str("Missing variables (may be in .env): ").concat(
            join_strings(missing, ", ").as_str(),
        );
        CheckResult::finish(CheckKind::EnvVars, false, msg, duration_ms)
    }
}

/// Classify the GPU-availability check.  Advisory: an absent GPU (or an
/// unreadable registry) is reported and never blocks the run.
pub fn classify_gpu(registry_loaded: bool, gpu_available: bool, duration_ms: u64) -> (r:
    CheckResult)
    ensures
        r.number == spec_check_number(CheckKind::Gpu),
        r.description@ == spec_description(CheckKind::Gpu),
        r.duration_ms == duration_ms,
        r.ok == true,
        r.raw_ok == (registry_loaded && gpu_available),
        !registry_loaded ==> r.message@ == "Could not check GPU requirements"@,
        registry_loaded && gpu_available ==> r.message@ == "GPU available"@,
        registry_loaded && !gpu_available ==> r.message@ == "GPU not available (warning only)"@,
{
    if !registry_loaded {
        CheckResult::finish(
            CheckKind::Gpu,
            false,
            String::from_str("Could not check GPU requirements"),
            duration_ms,
        )
    } else if gpu_available {
        CheckResult::finish(CheckKind::Gpu, true, String::from_str("GPU available"), duration_ms)
    } else {
        CheckResult::finish(
            CheckKind::Gpu,
            false,
            String::from_str("GPU not available (warning only)"),
            duration_ms,
        )
    }
}

/// A check that needed the registry but could not load it.
pub fn registry_failure_result(kind: CheckKind, err: &RegistryError, duration_ms: u64) -> (r:
    CheckResult)
    ensures
        r.number == spec_check_number(kind),
        r.description@ == spec_description(kind),
        r.duration_ms == duration_ms,
        r.raw_ok == false,
        r.ok == spec_effective(kind, false),
        r.message@ == "Failed to load registry: "@ + crate::registry::describe_of(*err),
{
    let msg = String::from_str("Failed to load registry: ").concat(err.describe().as_str());
    CheckResult::finish(kind, false, msg, duration_ms)
}

/// Outcome of one time-bounded HTTP probe in a fan-out batch.
pub enum ProbeOutcome {
    /// The request completed with a success status.
    Success,
    /// The request completed with this non-success status code.
    HttpStatus(u16),
    /// The request failed in transport; the detail says why.
    TransportError(String),
    /// The probe's own timeout elapsed before the request completed.
    TimedOut,
}

/// One probed unit of a fan-out batch: who was probed, what came back,
/// and how long the unit itself took.
pub struct ProbeReport {
    pub name: String,
    pub outcome: ProbeOutcome,
    pub duration_ms: u64,
}

/// A unit passes exactly when its request returned a success status.
pub open spec fn unit_ok(o: ProbeOutcome) -> bool {
    o is Success
}

pub fn unit_is_ok(o: &ProbeOutcome) -> (r: bool)
    ensures
        r == unit_ok(*o),
{
    match o {
        ProbeOutcome::Success => true,
        _ => false,
    }
}

/// The detail text recorded for one health-probe unit.
pub open spec fn unit_message_of(o: ProbeOutcome, ms: nat) -> Seq<char> {
    match o {
        ProbeOutcome::Success => "Healthy ("@ + dec_of(ms) + "ms)"@,
        ProbeOutcome::HttpStatus(s) => "HTTP "@ + dec_of(s as nat) + " ("@ + dec_of(ms) + "ms)"@,
        ProbeOutcome::TransportError(e) => "Request failed: "@ + e@ + " ("@ + dec_of(ms) + "ms)"@,
        ProbeOutcome::TimedOut => "Timeout after 5s ("@ + dec_of(ms) + "ms)"@,
    }
}

/// Render the detail text of one health-probe unit.
pub fn health_unit_message(o: &ProbeOutcome, duration_ms: u64) -> (r: String)
    ensures
        r@ == unit_message_of(*o, duration_ms as nat),
{
    let tail = String::from_str(" (").concat(u64_to_string(duration_ms).as_str()).concat("ms)");
    match o {
        ProbeOutcome::Success => {
            let r = String::from_str("Healthy (").concat(u64_to_string(duration_ms).as_str())
                .concat("ms)");
            proof {
                assert(*o is Success);
                assert(r@ =~= "Healthy ("@ + dec_of(duration_ms as nat) + "ms)"@);
                assert(unit_message_of(*o, duration_ms as nat) == "Healthy ("@ + dec_of(
                    duration_ms as nat,
                ) + "ms)"@);
            }
            r
        },
        ProbeOutcome::HttpStatus(s) => {
            let r = String::from_str("HTTP ").concat(u64_to_string(*s as u64).as_str()).concat(
                tail.as_str(),
            );
            proof {
                assert(r@ =~= "HTTP "@ + dec_of(*s as nat) + " ("@ + dec_of(
                    duration_ms as nat,
                ) + "ms)"@);
                assert(unit_message_of(*o, duration_ms as nat) == "HTTP "@ + dec_of(*s as nat)
                    + " ("@ + dec_of(duration_ms as nat) + "ms)"@);
            }
            r
        },
        ProbeOutcome::TransportError(e) => {
            let r = String::from_str("Request failed: ").concat(e.as_str()).concat(tail.as_str());
            proof {
                assert(r@ =~= "Request failed: "@ + e@ + " ("@ + dec_of(duration_ms as nat)
                    + "ms)"@);
                assert(unit_message_of(*o, duration_ms as nat) == "Request failed: "@ + e@ + " ("@
                    + dec_of(duration_ms as nat) + "ms)"@);
            }
            r
        },
        ProbeOutcome::TimedOut => {
            let r = String::from_str("Timeout after 5s (").concat(
                u64_to_string(duration_ms).as_str(),
            ).concat("ms)");
            proof {
                assert(r@ =~= "Timeout after 5s ("@ + dec_of(duration_ms as nat) + "ms)"@);
                assert(unit_message_of(*o, duration_ms as nat) == "Timeout after 5s ("@ + dec_of(
                    duration_ms as nat,
                ) + "ms)"@);
            }
            r
        },
    }
}

/// The names of the units that did not pass, in batch order.
pub open spec fn unhealthy_names(rs: Seq<ProbeReport>) -> Seq<Seq<char>>
    decreases rs.len(),
{
    if rs.len() == 0 {
        Seq::empty()
    } else {
        (if unit_ok(rs[0].outcome) {
            Seq::empty()
        } else {
            seq![rs[0].name@]
        }) + unhealthy_names(rs.drop_first())
    }
}

/// Classify the per-service health check from the outcomes of the
/// fan-out batch: a hard failure naming exactly the services whose
/// probes did not return a success status, and a hard failure when the
/// registry yielded nothing to probe.
pub fn classify_service_health(reports: &Vec<ProbeReport>, duration_ms: u64) -> (r: CheckResult)
    ensures
        r.number == spec_check_number(CheckKind::ServiceHealth),
        r.description@ == spec_description(CheckKind::ServiceHealth),
        r.duration_ms == duration_ms,
        r.ok == r.raw_ok,
        reports@.len() == 0 ==> !r.raw_ok && r.message@ == "No services found in registry"@,
        reports@.len() > 0 ==> ({
            let u = unhealthy_names(reports@);
            &&& r.raw_ok == (u.len() == 0)
            &&& (u.len() == 0 ==> r.message@ == "All "@ + dec_of(reports@.len())
                + " services healthy"@)
            &&& (u.len() > 0 ==> r.message@ == dec_of((reports@.len() - u.len()) as nat) + "/"@
                + dec_of(reports@.len()) + " healthy. Unhealthy: "@ + join_with(u, ", "@))
        }),
{
    if reports.len() == 0 {
        return CheckResult::finish(
            CheckKind::ServiceHealth,
            false,
            String::from_str("No services found in registry"),
            duration_ms,
        );
    }
    let mut unhealthy: Vec<String> = Vec::new();
    let mut i: usize = 0;
    proof {
        assert(reports@.skip(0) =~= reports@);
        assert(unhealthy.deep_view() =~= Seq::<Seq<char>>::empty());
        assert(unhealthy.deep_view() + unhealthy_names(reports@) =~= unhealthy_names(reports@));
    }
    while i < reports.len()
        invariant
            i <= reports.len(),
            unhealthy@.len() <= i,
            unhealthy_names(reports@) == unhealthy.deep_view() + unhealthy_names(
                reports@.skip(i as int),
            ),
        decreases reports.len() - i,
    {
        let ghost t = reports@.skip(i as int);
        let ghost out0 = unhealthy.deep_view();
        proof {
            assert(t[0] == reports@[i as int]);
            assert(t.drop_first() =~= reports@.skip(i + 1));
        }
        if !unit_is_ok(&reports[i].outcome) {
            unhealthy.push(reports[i].name.clone());
        }
        proof {
            assert(unhealthy.deep_view() =~= out0 + (if unit_ok(t[0].outcome) {
                Seq::<Seq<char>>::empty()
            } else {
                seq![t[0].name@]
            }));
            assert(out0 + ((if unit_ok(t[0].outcome) {
                Seq::<Seq<char>>::empty()
            } else {
                seq![t[0].name@]
            }) + unhealthy_names(reports@.skip(i + 1))) =~= unhealthy.deep_view()
                + unhealthy_names(reports@.skip(i + 1)));
        }
        i = i + 1;
    }
    proof {
        assert(reports@.skip(reports@.len() as int) =~= Seq::<ProbeReport>::empty());
        assert(unhealthy.deep_view() =~= unhealthy_names(reports@));
    }
    if unhealthy.len() == 0 {
        proof {
            assert(unhealthy.deep_view().len() == 0);
        }
        let msg = String::from_str("All ").concat(u64_to_string(reports.len() as u64).as_str())
            .concat(" services healthy");
        CheckResult::finish(CheckKind::ServiceHealth, true, msg, duration_ms)
    } else {
        proof {
            assert(unhealthy.deep_view().len() == unhealthy@.len());
        }
        let healthy = reports.len() - unhealthy.len();
        let msg = u64_to_string(healthy as u64).concat("/").concat(
            u64_to_string(reports.len() as u64).as_str(),
        ).concat(" healthy. Unhealthy: ").concat(join_strings(&unhealthy, ", ").as_str());
        proof {
            reveal_strlit("/");
        }
        CheckResult::finish(CheckKind::ServiceHealth, false, msg, duration_ms)
    }
}

/// The display labels of the fixed smoke chain, in order: three health
/// probes of dependent services, then one call that exercises the
/// inter-service chain.
pub open spec fn smoke_labels() -> Seq<Seq<char>> {
    seq!["fks_api"@, "fks_data"@, "fks_auth"@, "fks_api → fks_data integration"@]
}

/// The fixed label/URL pairs of the smoke chain.
pub fn smoke_chain_steps() -> (r: Vec<(String, String)>)
    ensures
        crate::registry::view_pairs(r@) == seq![
            (smoke_labels()[0], "http://localhost:8001/health"@),
            (smoke_labels()[1], "http://localhost:8003/health"@),
            (smoke_labels()[2], "http://localhost:8009/health"@),
            (smoke_labels()[3], "http://localhost:8001/"@),
        ],
{
    let mut v: Vec<(String, String)> = Vec::new();
    v.push((String::from_str("fks_api"), String::from_str("http://localhost:8001/health")));
    v.push((String::from_str("fks_data"), String::from_str("http://localhost:8003/health")));
    v.push((String::from_str("fks_auth"), String::from_str("http://localhost:8009/health")));
    v.push(
        (
            String::from_str("fks_api → fks_data integration"),
            String::from_str("http://localhost:8001/"),
        ),
    );
    proof {
        assert(crate::registry::view_pairs(v@) =~= seq![
            (smoke_labels()[0], "http://localhost:8001/health"@),
            (smoke_labels()[1], "http://localhost:8003/health"@),
            (smoke_labels()[2], "http://localhost:8009/health"@),
            (smoke_labels()[3], "http://localhost:8001/"@),
        ]);
    }
    v
}

/// The recorded text of one smoke step.  The final step is lenient: a
/// non-success status is recorded but does not fail the chain, since a
/// redirect is a valid answer there.
pub open spec fn smoke_step_text(label: Seq<char>, o: ProbeOutcome, last: bool) -> Seq<char> {
    if !last {
        label + (if o is Success {
            " → OK"@
        } else {
            " → FAIL"@
        })
    } else {
        match o {
            ProbeOutcome::Success => label + " → OK"@,
            ProbeOutcome::HttpStatus(s) => label + " → HTTP "@ + dec_of(s as nat),
            ProbeOutcome::TransportError(e) => label + " → FAIL: "@ + e@,
            ProbeOutcome::TimedOut => label + " → FAIL: deadline has elapsed"@,
        }
    }
}

/// Whether the whole chain passes: the three health steps must succeed,
/// and the final step must at least complete.
pub open spec fn smoke_raw_ok(os: Seq<ProbeOutcome>) -> bool {
    &&& unit_ok(os[0])
    &&& unit_ok(os[1])
    &&& unit_ok(os[2])
    &&& !(os[3] is TransportError)
    &&& !(os[3] is TimedOut)
}

/// The recorded texts of the four steps.
pub open spec fn smoke_steps_text(os: Seq<ProbeOutcome>) -> Seq<Seq<char>> {
    seq![
        smoke_step_text(smoke_labels()[0], os[0], false),
        smoke_step_text(smoke_labels()[1], os[1], false),
        smoke_step_text(smoke_labels()[2], os[2], false),
        smoke_step_text(smoke_labels()[3], os[3], true),
    ]
}

/// Render one non-final smoke step.
fn smoke_plain_step(label: &str, o: &ProbeOutcome) -> (r: String)
    ensures
        r@ == smoke_step_text(label@, *o, false),
{
    if unit_is_ok(o) {
        String::from_str(label).concat(" → OK")
    } else {
        String::from_str(label).concat(" → FAIL")
    }
}

/// Classify the smoke-chain check from the outcomes of its four steps,
/// in step order: a hard failure when any health step fails or the final
/// integration call does not complete, with a message recording every
/// step.
pub fn classify_smoke(outcomes: &Vec<ProbeOutcome>, duration_ms: u64) -> (r: CheckResult)
    requires
        outcomes@.len() == 4,
    ensures
        r.number == spec_check_number(CheckKind::SmokeChain),
        r.description@ == spec_description(CheckKind::SmokeChain),
        r.duration_ms == duration_ms,
        r.ok == r.raw_ok,
        r.raw_ok == smoke_raw_ok(outcomes@),
        r.message@ == "Chain: "@ + join_with(smoke_steps_text(outcomes@), " | "@),
{
    let mut steps: Vec<String> = Vec::new();
    steps.push(smoke_plain_step("fks_api", &outcomes[0]));
    steps.push(smoke_plain_step("fks_data", &outcomes[1]));
    steps.push(smoke_plain_step("fks_auth", &outcomes[2]));
    let last_label = "fks_api → fks_data integration";
    let last: String = match &outcomes[3] {
        ProbeOutcome::Success => String::from_str(last_label).concat(" → OK"),
        ProbeOutcome::HttpStatus(s) => String::from_str(last_label).concat(" → HTTP ").concat(
            u64_to_string(*s as u64).as_str(),
        ),
        ProbeOutcome::TransportError(e) => String::from_str(last_label).concat(" → FAIL: ")
            .concat(e.as_str()),
        ProbeOutcome::TimedOut => String::from_str(last_label).concat(
            " → FAIL: deadline has elapsed",
        ),
    };
    proof {
        assert(last@ =~= smoke_step_text(smoke_labels()[3], outcomes@[3], true)) by {
            reveal_strlit("fks_api → fks_data integration");
            reveal_strlit(" → HTTP ");
            reveal_strlit(" → FAIL: ");
            reveal_strlit(" → FAIL: deadline has elapsed");
            reveal_strlit(" → OK");
        }
    }
    steps.push(last);
    proof {
        assert(steps.deep_view() =~= smoke_steps_text(outcomes@));
    }
    let ok0 = unit_is_ok(&outcomes[0]);
    let ok1 = unit_is_ok(&outcomes[1]);
    let ok2 = unit_is_ok(&outcomes[2]);
    let ok3 = match &outcomes[3] {
        ProbeOutcome::TransportError(_) => false,
        ProbeOutcome::TimedOut => false,
        _ => true,
    };
    let all_passed = ok0 && ok1 && ok2 && ok3;
    let msg = String::from_str("Chain: ").concat(join_strings(&steps, " | ").as_str());
    CheckResult::finish(CheckKind::SmokeChain, all_passed, msg, duration_ms)
}

/// Outcome of one metrics-endpoint probe.
pub enum MetricsOutcome {
    /// The request returned a success status and this body text.
    Body(String),
    /// The request completed with this non-success status code.
    HttpStatus(u16),
    /// The request failed in transport; the detail says why.
    TransportError(String),
    /// The probe's timeout elapsed before the request completed.
    TimedOut,
}

/// One probed metrics endpoint of a fan-out batch.
pub struct MetricsReport {
    pub name: String,
    pub outcome: MetricsOutcome,
    pub duration_ms: u64,
}

/// A metrics endpoint is valid exactly when its body carries the
/// build-info marker.
pub open spec fn metrics_unit_ok(o: MetricsOutcome) -> bool {
    o matches MetricsOutcome::Body(b) && contains_seq(b@, "fks_build_info"@)
}

/// The detail text recorded for one metrics-probe unit.
pub open spec fn metrics_unit_message_of(o: MetricsOutcome, ms: nat) -> Seq<char> {
    match o {
        MetricsOutcome::Body(b) => if contains_seq(b@, "fks_build_info"@) {
            "Valid metrics ("@ + dec_of(ms) + "ms)"@
        } else {
            "Missing fks_build_info metric ("@ + dec_of(ms) + "ms)"@
        },
        MetricsOutcome::HttpStatus(s) => "HTTP "@ + dec_of(s as nat) + " ("@ + dec_of(ms)
            + "ms)"@,
        MetricsOutcome::TransportError(e) => "Request failed: "@ + e@ + " ("@ + dec_of(ms)
            + "ms)"@,
        MetricsOutcome::TimedOut => "Timeout after 5s ("@ + dec_of(ms) + "ms)"@,
    }
}

/// Render the detail text of one metrics-probe unit.
pub fn metrics_unit_message(o: &MetricsOutcome, duration_ms: u64) -> (r: String)
    ensures
        r@ == metrics_unit_message_of(*o, duration_ms as nat),
{
    let ms = u64_to_string(duration_ms);
    match o {
        MetricsOutcome::Body(b) => {
            if contains_str(b.as_str(), "fks_build_info") {
                let r = String::from_str("Valid metrics (").concat(ms.as_str()).concat("ms)");
                proof {
                    assert(r@ =~= "Valid metrics ("@ + dec_of(duration_ms as nat) + "ms)"@);
                }
                r
            } else {
                let r = String::from_str("Missing fks_build_info metric (").concat(ms.as_str())
                    .concat("ms)");
                proof {
                    assert(r@ =~= "Missing fks_build_info metric ("@ + dec_of(duration_ms as nat)
                        + "ms)"@);
                }
                r
            }
        },
        MetricsOutcome::HttpStatus(s) => {
            let r = String::from_str("HTTP ").concat(u64_to_string(*s as u64).as_str()).concat(
                " (",
            ).concat(ms.as_str()).concat("ms)");
            proof {
                assert(r@ =~= "HTTP "@ + dec_of(*s as nat) + " ("@ + dec_of(duration_ms as nat)
                    + "ms)"@);
            }
            r
        },
        MetricsOutcome::TransportError(e) => {
            let r = String::from_str("Request failed: ").concat(e.as_str()).concat(" (").concat(
                ms.as_str(),
            ).concat("ms)");
            proof {
                assert(r@ =~= "Request failed: "@ + e@ + " ("@ + dec_of(duration_ms as nat)
                    + "ms)"@);
            }
            r
        },
        MetricsOutcome::TimedOut => {
            let r = String::from_str("Timeout after 5s (").concat(ms.as_str()).concat("ms)");
            proof {
                assert(r@ =~= "Timeout after 5s ("@ + dec_of(duration_ms as nat) + "ms)"@);
            }
            r
        },
    }
}

/// The per-unit failure texts of the invalid endpoints, in batch order:
/// each is the service name with the unit's detail in parentheses.
pub open spec fn invalid_entries(rs: Seq<MetricsReport>) -> Seq<Seq<char>>
    decreases rs.len(),
{
    if rs.len() == 0 {
        Seq::empty()
    } else {
        (if metrics_unit_ok(rs[0].outcome) {
            Seq::empty()
        } else {
            seq![
                rs[0].name@ + " ("@ + metrics_unit_message_of(
                    rs[0].outcome,
                    rs[0].duration_ms as nat,
                ) + ")"@,
            ]
        }) + invalid_entries(rs.drop_first())
    }
}

/// Classify the metrics-endpoint check from the outcomes of the fan-out
/// batch: a hard failure naming each endpoint that did not return a body
/// carrying the build-info marker, and a hard failure when the registry
/// yielded nothing to probe.
pub fn classify_metrics_endpoints(reports: &Vec<MetricsReport>, duration_ms: u64) -> (r:
    CheckResult)
    ensures
        r.number == spec_check_number(CheckKind::MetricsShape),
        r.description@ == spec_description(CheckKind::MetricsShape),
        r.duration_ms == duration_ms,
        r.ok == r.raw_ok,
        reports@.len() == 0 ==> !r.raw_ok && r.message@ == "No services found in registry"@,
        reports@.len() > 0 ==> ({
            let inv = invalid_entries(reports@);
            &&& r.raw_ok == (inv.len() == 0)
            &&& (inv.len() == 0 ==> r.message@ == "All "@ + dec_of(reports@.len())
                + " services expose valid metrics"@)
            &&& (inv.len() > 0 ==> r.message@ == dec_of((reports@.len() - inv.len()) as nat)
                + "/"@ + dec_of(reports@.len()) + " valid. Invalid: "@ + join_with(inv, ", "@))
        }),
{
    if reports.len() == 0 {
        return CheckResult::finish(
            CheckKind::MetricsShape,
            false,
            String::from_str("No services found in registry"),
            duration_ms,
        );
    }
    let mut invalid: Vec<String> = Vec::new();
    let mut i: usize = 0;
    proof {
        assert(reports@.skip(0) =~= reports@);
        assert(invalid.deep_view() =~= Seq::<Seq<char>>::empty());
        assert(invalid.deep_view() + invalid_entries(reports@) =~= invalid_entries(reports@));
    }
    while i < reports.len()
        invariant
            i <= reports.len(),
            invalid@.len() <= i,
            invalid_entries(reports@) == invalid.deep_view() + invalid_entries(
                reports@.skip(i as int),
            ),
        decreases reports.len() - i,
    {
        let ghost t = reports@.skip(i as int);
        let ghost out0 = invalid.deep_view();
        proof {
            assert(t[0] == reports@[i as int]);
            assert(t.drop_first() =~= reports@.skip(i + 1));
        }
        let rep = &reports[i];
        let valid = match &rep.outcome {
            MetricsOutcome::Body(b) => contains_str(b.as_str(), "fks_build_info"),
            _ => false,
        };
        if !valid {
            let detail = metrics_unit_message(&rep.outcome, rep.duration_ms);
            let entry = rep.name.clone().concat(" (").concat(detail.as_str()).concat(")");
            proof {
                assert(entry@ =~= t[0].name@ + " ("@ + metrics_unit_message_of(
                    t[0].outcome,
                    t[0].duration_ms as nat,
                ) + ")"@);
            }
            invalid.push(entry);
        }
        proof {
            assert(invalid.deep_view() =~= out0 + (if metrics_unit_ok(t[0].outcome) {
                Seq::<Seq<char>>::empty()
            } else {
                seq![
                    t[0].name@ + " ("@ + metrics_unit_message_of(
                        t[0].outcome,
                        t[0].duration_ms as nat,
                    ) + ")"@,
                ]
            }));
            assert(out0 + ((if metrics_unit_ok(t[0].outcome) {
                Seq::<Seq<char>>::empty()
            } else {
                seq![
                    t[0].name@ + " ("@ + metrics_unit_message_of(
                        t[0].outcome,
                        t[0].duration_ms as nat,
                    ) + ")"@,
                ]
            }) + invalid_entries(reports@.skip(i + 1))) =~= invalid.deep_view() + invalid_entries(
                reports@.skip(i + 1),
            ));
        }
        i = i + 1;
    }
    proof {
        assert(reports@.skip(reports@.len() as int) =~= Seq::<MetricsReport>::empty());
        assert(invalid.deep_view() =~= invalid_entries(reports@));
    }
    if invalid.len() == 0 {
        proof {
            assert(invalid.deep_view().len() == 0);
        }
        let msg = String::from_str("All ").concat(u64_to_string(reports.len() as u64).as_str())
            .concat(" services expose valid metrics");
        CheckResult::finish(CheckKind::MetricsShape, true, msg, duration_ms)
    } else {
        proof {
            assert(invalid.deep_view().len() == invalid@.len());
        }
        let valid_count = reports.len() - invalid.len();
        let msg = u64_to_string(valid_count as u64).concat("/").concat(
            u64_to_string(reports.len() as u64).as_str(),
        ).concat(" valid. Invalid: ").concat(join_strings(&invalid, ", ").as_str());
        proof {
            reveal_strlit("/");
        }
        CheckResult::finish(CheckKind::MetricsShape, false, msg, duration_ms)
    }
}

/// One unit's classification depends on that unit's outcome alone: in
/// two batches of equal length that differ at most in unit `i`, every
/// other unit classifies identically.  A unit that times out therefore
/// never changes a sibling's outcome.
pub proof fn lemma_unit_isolation(a: Seq<ProbeReport>, b: Seq<ProbeReport>, i: int)
    requires
        a.len() == b.len(),
        forall|j: int| 0 <= j < a.len() && j != i ==> a[j] == b[j],
    ensures
        forall|j: int|
            0 <= j < a.len() && j != i ==> unit_ok(a[j].outcome) == unit_ok(b[j].outcome),
{
}

/// The batch view of the same law: with unit `i` set aside, two batches
/// that differ only in unit `i` classify to the same unhealthy list.
pub proof fn lemma_batch_isolation(a: Seq<ProbeReport>, b: Seq<ProbeReport>, i: int)
    requires
        0 <= i < a.len(),
        a.len() == b.len(),
        forall|j: int| 0 <= j < a.len() && j != i ==> a[j] == b[j],
    ensures
        unhealthy_names(a.remove(i)) == unhealthy_names(b.remove(i)),
{
    assert(a.remove(i) =~= b.remove(i));
}

} // verus!
