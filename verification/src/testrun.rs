//! Test orchestration: deriving per-service test configurations from the
//! registry, coordinating declared test dependencies, and classifying
//! test-run outcomes.

use vstd::prelude::*;
use crate::registry::RegistryEntry;
use crate::text::{
    contains_seq, contains_str, eq_str, join_with, join_strings, lines_of, split_lines, split_ws,
    ws_split,
};

verus! {

/// The derived test configuration of one matched service.
#[derive(Clone, Debug)]
pub struct ServiceTestConfig {
    pub name: String,
    pub path: String,
    pub test_command: String,
    pub test_dependencies: Vec<String>,
    pub requires_gpu: bool,
    pub framework: String,
}

/// The outcome of one service's test run.
#[derive(Clone, Debug)]
pub struct TestResult {
    pub service: String,
    pub success: bool,
    pub duration_ms: u64,
    pub stdout: String,
    pub stderr: String,
    pub exit_code: Option<i32>,
}

/// The default test command of a framework: one default for the Python
/// web framework family, the native test command for the platform's own
/// framework, and a generic fallback otherwise.
pub open spec fn default_command_for(framework: Seq<char>) -> Seq<char> {
    if framework == "fastapi"@ || framework == "django"@ {
        "pytest -n auto --cov=src --cov-report=term-missing"@
    } else if framework == "axum"@ {
        "cargo test --workspace --all-targets"@
    } else {
        "pytest"@
    }
}

/// Resolve the default test command of a framework.
pub fn default_test_command(framework: &str) -> (r: String)
    ensures
        r@ == default_command_for(framework@),
{
    if eq_str(framework, "fastapi") || eq_str(framework, "django") {
        String::from_str("pytest -n auto --cov=src --cov-report=term-missing")
    } else if eq_str(framework, "axum") {
        String::from_str("cargo test --workspace --all-targets")
    } else {
        String::from_str("pytest")
    }
}

/// The framework of an entry, defaulted when undeclared.
pub open spec fn spec_framework_of(e: RegistryEntry) -> Seq<char> {
    match e.framework {
        Some(f) => f@,
        None => "fastapi"@,
    }
}

/// The test command of an entry: its explicit command always wins over
/// the framework default.
pub open spec fn spec_command_of(e: RegistryEntry) -> Seq<char> {
    match e.test_command {
        Some(c) => c@,
        None => default_command_for(spec_framework_of(e)),
    }
}

/// What a correctly derived configuration of `e` looks like.
pub open spec fn config_matches(c: ServiceTestConfig, e: RegistryEntry) -> bool {
    &&& c.name@ == e.name@
    &&& c.path@ == "services/"@ + e.name@
    &&& c.test_command@ == spec_command_of(e)
    &&& c.test_dependencies.deep_view() == e.test_dependencies.deep_view()
    &&& c.requires_gpu == e.requires_gpu
    &&& c.framework@ == spec_framework_of(e)
}

/// Whether an entry passes the optional name filter (a substring match).
pub open spec fn spec_selected(e: RegistryEntry, filter: Option<Seq<char>>) -> bool {
    match filter {
        None => true,
        Some(f) => contains_seq(e.name@, f),
    }
}

/// The entries that pass the filter, in registry order.
pub open spec fn selected_entries(s: Seq<RegistryEntry>, filter: Option<Seq<char>>) -> Seq<
    RegistryEntry,
>
    decreases s.len(),
{
    if s.len() == 0 {
        Seq::empty()
    } else {
        (if spec_selected(s[0], filter) {
            seq![s[0]]
        } else {
            Seq::empty()
        }) + selected_entries(s.drop_first(), filter)
    }
}

/// The view of an optional filter string.
pub open spec fn filter_view(filter: Option<&str>) -> Option<Seq<char>> {
    match filter {
        None => None,
        Some(f) => Some(f@),
    }
}

/// Copy a list of strings.
pub fn clone_string_vec(v: &Vec<String>) -> (r: Vec<String>)
    ensures
        r@ == v@,
{
    let mut out: Vec<String> = Vec::new();
    let mut i: usize = 0;
    while i < v.len()
        invariant
            i <= v.len(),
            out@ == v@.take(i as int),
        decreases v.len() - i,
    {
        out.push(v[i].clone());
        proof {
            assert(out@ =~= v@.take(i + 1));
        }
        i = i + 1;
    }
    proof {
        assert(v@.take(v@.len() as int) =~= v@);
    }
    out
}

/// Build one service's test configuration from its registry entry.
pub fn build_test_config(e: &RegistryEntry) -> (c: ServiceTestConfig)
    ensures
        config_matches(c, *e),
{
    let framework = match &e.framework {
        Some(f) => f.clone(),
        None => String::from_str("fastapi"),
    };
    let test_command = match &e.test_command {
        Some(c) => c.clone(),
        None => default_test_command(framework.as_str()),
    };
    let path = String::from_str("services/").concat(e.name.as_str());
    ServiceTestConfig {
        name: e.name.clone(),
        path,
        test_command,
        test_dependencies: clone_string_vec(&e.test_dependencies),
        requires_gpu: e.requires_gpu,
        framework,
    }
}

/// Derive the test configurations of every entry whose name contains the
/// optional filter substring, in registry order.
pub fn extract_test_configs(entries: &Vec<RegistryEntry>, filter: Option<&str>) -> (r: Vec<
    ServiceTestConfig,
>)
    ensures
        ({
            let sel = selected_entries(entries@, filter_view(filter));
            &&& r@.len() == sel.len()
            &&& forall|j: int| 0 <= j < sel.len() ==> config_matches(#[trigger] r@[j], sel[j])
        }),
{
    let ghost fv = filter_view(filter);
    let mut out: Vec<ServiceTestConfig> = Vec::new();
    let ghost mut selp = Seq::<RegistryEntry>::empty();
    let mut i: usize = 0;
    proof {
        assert(entries@.skip(0) =~= entries@);
        assert(selp + selected_entries(entries@, fv) =~= selected_entries(entries@, fv));
    }
    while i < entries.len()
        invariant
            i <= entries.len(),
            fv == filter_view(filter),
            selected_entries(entries@, fv) == selp + selected_entries(entries@.skip(i as int), fv),
            out@.len() == selp.len(),
            forall|j: int| 0 <= j < selp.len() ==> config_matches(#[trigger] out@[j], selp[j]),
        decreases entries.len() - i,
    {
        let ghost t = entries@.skip(i as int);
        let ghost selp0 = selp;
        proof {
            assert(t[0] == entries@[i as int]);
            assert(t.drop_first() =~= entries@.skip(i + 1));
        }
        let e = &entries[i];
        let chosen = match filter {
            None => true,
            Some(f) => contains_str(e.name.as_str(), f),
        };
        if chosen {
            let c = build_test_config(e);
            out.push(c);
            proof {
                selp = selp0.push(entries@[i as int]);
                assert(selp0 + seq![t[0]] =~= selp);
                assert(selp0 + (seq![t[0]] + selected_entries(entries@.skip(i + 1), fv)) =~= selp
                    + selected_entries(entries@.skip(i + 1), fv));
            }
        } else {
            proof {
                assert(selp0 + (Seq::<RegistryEntry>::empty() + selected_entries(
                    entries@.skip(i + 1),
                    fv,
                )) =~= selp + selected_entries(entries@.skip(i + 1), fv));
            }
        }
        i = i + 1;
    }
    proof {
        assert(entries@.skip(entries@.len() as int) =~= Seq::<RegistryEntry>::empty());
        assert(selp + selected_entries(Seq::<RegistryEntry>::empty(), fv) =~= selp);
    }
    out
}

/// Whether a list of strings contains one equal to `x`.
pub open spec fn contains_string(v: Seq<Seq<char>>, x: Seq<char>) -> bool {
    exists|i: int| 0 <= i < v.len() && #[trigger] v[i] == x
}

/// Whether `v` holds a string equal to `s`.
pub fn vec_contains_str(v: &Vec<String>, s: &str) -> (r: bool)
    ensures
        r == contains_string(v.deep_view(), s@),
{
    let mut i: usize = 0;
    while i < v.len()
        invariant
            i <= v.len(),
            forall|k: int| 0 <= k < i ==> #[trigger] v.deep_view()[k] != s@,
        decreases v.len() - i,
    {
        if eq_str(v[i].as_str(), s) {
            proof {
                assert(v.deep_view()[i as int] == v@[i as int]@);
            }
            return true;
        }
        proof {
            assert(v.deep_view()[i as int] == v@[i as int]@);
        }
        i = i + 1;
    }
    false
}

/// The declared dependencies of all configurations, concatenated in
/// configuration order.
pub open spec fn flat_deps(s: Seq<ServiceTestConfig>) -> Seq<Seq<char>>
    decreases s.len(),
{
    if s.len() == 0 {
        Seq::empty()
    } else {
        s[0].test_dependencies.deep_view() + flat_deps(s.drop_first())
    }
}

/// The union of every configuration's declared test dependencies: a
/// dependency appears exactly when some configuration declares it, and
/// no dependency appears twice.  This step only reports the set; it does
/// not start anything and must not be read as guaranteeing readiness.
pub fn dependency_union(configs: &Vec<ServiceTestConfig>) -> (r: Vec<String>)
    ensures
        forall|x: Seq<char>|
            #[trigger] contains_string(r.deep_view(), x) == contains_string(
                flat_deps(configs@),
                x,
            ),
        forall|i: int, j: int|
            0 <= i < j < r@.len() ==> r.deep_view()[i] != r.deep_view()[j],
        (forall|i: int|
            0 <= i < configs@.len() ==> (#[trigger] configs@[i].test_dependencies@.len())
                == 0) ==> r@.len() == 0,
{
    let mut flat: Vec<String> = Vec::new();
    let mut i: usize = 0;
    proof {
        assert(configs@.skip(0) =~= configs@);
        assert(flat.deep_view() =~= Seq::<Seq<char>>::empty());
        assert(flat.deep_view() + flat_deps(configs@) =~= flat_deps(configs@));
    }
    while i < configs.len()
        invariant
            i <= configs.len(),
            flat_deps(configs@) == flat.deep_view() + flat_deps(configs@.skip(i as int)),
        decreases configs.len() - i,
    {
        let ghost t = configs@.skip(i as int);
        let ghost flat0 = flat.deep_view();
        proof {
            assert(t[0] == configs@[i as int]);
            assert(t.drop_first() =~= configs@.skip(i + 1));
        }
        let deps = &configs[i].test_dependencies;
        let mut j: usize = 0;
        while j < deps.len()
            invariant
                j <= deps.len(),
                deps == &configs@[i as int].test_dependencies,
                flat.deep_view() == flat0 + deps.deep_view().take(j as int),
            decreases deps.len() - j,
        {
            let ghost fd0 = flat.deep_view();
            flat.push(deps[j].clone());
            proof {
                assert(flat.deep_view() =~= fd0.push(deps.deep_view()[j as int]));
                assert(flat.deep_view() =~= flat0 + deps.deep_view().take(j + 1));
            }
            j = j + 1;
        }
        proof {
            assert(deps.deep_view().take(deps@.len() as int) =~= deps.deep_view());
            assert(t[0].test_dependencies.deep_view() == deps.deep_view());
            assert(flat0 + (t[0].test_dependencies.deep_view() + flat_deps(
                configs@.skip(i + 1),
            )) =~= flat.deep_view() + flat_deps(configs@.skip(i + 1)));
        }
        i = i + 1;
    }
    proof {
        assert(configs@.skip(configs@.len() as int) =~= Seq::<ServiceTestConfig>::empty());
        assert(flat.deep_view() =~= flat_deps(configs@));
    }
    let mut out: Vec<String> = Vec::new();
    let mut k: usize = 0;
    while k < flat.len()
        invariant
            k <= flat.len(),
            flat.deep_view() == flat_deps(configs@),
            forall|w: int|
                0 <= w < out.deep_view().len() ==> contains_string(
                    flat.deep_view().take(k as int),
                    #[trigger] out.deep_view()[w],
                ),
            forall|v: int|
                0 <= v < k ==> contains_string(out.deep_view(), #[trigger] flat.deep_view()[v]),
            forall|a: int, b: int|
                0 <= a < b < out@.len() ==> out.deep_view()[a] != out.deep_view()[b],
        decreases flat.len() - k,
    {
        let ghost out0 = out.deep_view();
        let ghost fv = flat.deep_view();
        let present = vec_contains_str(&out, flat[k].as_str());
        proof {
            assert(fv[k as int] == flat@[k as int]@);
        }
        if !present {
            out.push(flat[k].clone());
            proof {
                assert(out.deep_view() =~= out0.push(fv[k as int]));
            }
        }
        proof {
            // every element of `out` comes from the first k + 1 of `flat`
            assert forall|w: int|
                0 <= w < out.deep_view().len() implies contains_string(
                    fv.take(k + 1),
                    #[trigger] out.deep_view()[w],
                ) by {
                if w < out0.len() {
                    assert(out.deep_view()[w] == out0[w]);
                    lemma_contains_take_extend(fv, k as int, out0[w]);
                } else {
                    assert(out.deep_view()[w] == fv[k as int]);
                    assert(fv.take(k + 1)[k as int] == fv[k as int]);
                    lemma_contains_at(fv.take(k + 1), k as int);
                }
            }
            // the first k + 1 of `flat` are all represented in `out`
            assert forall|v: int|
                0 <= v < k + 1 implies contains_string(out.deep_view(), #[trigger] fv[v]) by {
                if v < k {
                    assert(contains_string(out0, fv[v]));
                    if present {
                    } else {
                        lemma_contains_push(out0, fv[v], fv[k as int]);
                    }
                } else {
                    if present {
                        assert(contains_string(out0, fv[k as int]));
                    } else {
                        lemma_contains_at(out.deep_view(), out.deep_view().len() - 1);
                    }
                }
            }
            // no element appears twice
            assert forall|a: int, b: int|
                0 <= a < b < out@.len() implies out.deep_view()[a] != out.deep_view()[b] by {
                if b >= out0.len() {
                    assert(!present);
                    assert(out.deep_view()[b] == fv[k as int]);
                    assert(out.deep_view()[a] == out0[a]);
                    if out.deep_view()[a] == out.deep_view()[b] {
                        lemma_contains_at(out0, a);
                        assert(contains_string(out0, fv[k as int]));
                    }
                }
            }
        }
        k = k + 1;
    }
    proof {
        let fv = flat.deep_view();
        assert(fv.take(fv.len() as int) =~= fv);
        assert forall|x: Seq<char>|
            #[trigger] contains_string(out.deep_view(), x) == contains_string(
                flat_deps(configs@),
                x,
            ) by {
            if contains_string(out.deep_view(), x) {
                let w = choose|w: int|
                    0 <= w < out.deep_view().len() && #[trigger] out.deep_view()[w] == x;
                assert(contains_string(fv.take(flat@.len() as int), out.deep_view()[w]));
            }
            if contains_string(flat_deps(configs@), x) {
                let v = choose|v: int| 0 <= v < fv.len() && #[trigger] fv[v] == x;
                assert(contains_string(out.deep_view(), fv[v]));
            }
        }
        if forall|i2: int|
            0 <= i2 < configs@.len() ==> (#[trigger] configs@[i2].test_dependencies@.len()) == 0 {
            lemma_flat_deps_empty(configs@);
            if out@.len() > 0 {
                lemma_contains_at(out.deep_view(), 0);
                assert(contains_string(flat_deps(configs@), out.deep_view()[0]));
            }
        }
    }
    out
}

/// A list containing `x` still contains it after a push.
proof fn lemma_contains_push(v: Seq<Seq<char>>, x: Seq<char>, y: Seq<char>)
    requires
        contains_string(v, x),
    ensures
        contains_string(v.push(y), x),
{
    let w = choose|w: int| 0 <= w < v.len() && #[trigger] v[w] == x;
    assert(v.push(y)[w] == x);
}

/// A list contains each of its elements.
proof fn lemma_contains_at(v: Seq<Seq<char>>, i: int)
    requires
        0 <= i < v.len(),
    ensures
        contains_string(v, v[i]),
{
    assert(0 <= i < v.len() && v[i] == v[i]);
}

/// Membership in a prefix carries to the longer prefix.
proof fn lemma_contains_take_extend(v: Seq<Seq<char>>, k: int, x: Seq<char>)
    requires
        0 <= k < v.len(),
        contains_string(v.take(k), x),
    ensures
        contains_string(v.take(k + 1), x),
{
    let w = choose|w: int| 0 <= w < v.take(k).len() && #[trigger] v.take(k)[w] == x;
    assert(v.take(k + 1)[w] == x);
}

/// With no dependencies declared anywhere, the flattened list is empty.
proof fn lemma_flat_deps_empty(s: Seq<ServiceTestConfig>)
    requires
        forall|i: int| 0 <= i < s.len() ==> (#[trigger] s[i].test_dependencies@.len()) == 0,
    ensures
        flat_deps(s).len() == 0,
    decreases s.len(),
{
    if s.len() > 0 {
        assert(s[0].test_dependencies@.len() == 0);
        assert(s[0].test_dependencies.deep_view().len() == 0);
        assert forall|i: int|
            0 <= i < s.drop_first().len() implies (
            #[trigger] s.drop_first()[i].test_dependencies@.len()) == 0 by {
            assert(s.drop_first()[i] == s[i + 1]);
        }
        lemma_flat_deps_empty(s.drop_first());
    }
}

/// How one service's test run is to proceed.
pub enum TestPlan {
    /// No process is run; this result is recorded as the outcome.
    Reject(TestResult),
    /// Run `program` with `args` in the service's directory.
    Launch { program: String, args: Vec<String> },
}

/// Plan one service's test run.  A missing service directory or an empty
/// resolved command is rejected immediately, without running a process;
/// otherwise the command's first word is the program and the rest are
/// its arguments.
pub fn plan_service_test(config: &ServiceTestConfig, dir_exists: bool) -> (r: TestPlan)
    ensures
        !dir_exists ==> (r matches TestPlan::Reject(t) && t.service@ == config.name@ && !t.success
            && t.exit_code is None && t.stdout@.len() == 0 && t.duration_ms == 0 && t.stderr@
            == "Service directory not found: \""@ + config.path@ + "\""@),
        dir_exists && ws_split(config.test_command@).len() == 0 ==> (r matches TestPlan::Reject(t)
            && t.service@ == config.name@ && !t.success && t.exit_code is None && t.stdout@.len()
            == 0 && t.duration_ms == 0 && t.stderr@ == "Empty test command"@),
        dir_exists && ws_split(config.test_command@).len() > 0 ==> (r matches TestPlan::Launch {
            program,
            args,
        } && program@ == ws_split(config.test_command@)[0] && args.deep_view() == ws_split(
            config.test_command@,
        ).drop_first()),
{
    if !dir_exists {
        let stderr = String::from_str("Service directory not found: \"").concat(
            config.path.as_str(),
        ).concat("\"");
        proof {
            reveal_strlit("Service directory not found: \"");
            reveal_strlit("Service directory not found: ");
            reveal_strlit("\"");
            assert(stderr@ =~= "Service directory not found: "@ + "\""@ + config.path@ + "\""@);
            assert("Service directory not found: \""@ =~= "Service directory not found: "@
                + "\""@);
        }
        return TestPlan::Reject(
            TestResult {
                service: config.name.clone(),
                success: false,
                duration_ms: 0,
                stdout: String::new(),
                stderr,
                exit_code: None,
            },
        );
    }
    let mut parts = split_ws(config.test_command.as_str());
    if parts.len() == 0 {
        return TestPlan::Reject(
            TestResult {
                service: config.name.clone(),
                success: false,
                duration_ms: 0,
                stdout: String::new(),
                stderr: String::from_str("Empty test command"),
                exit_code: None,
            },
        );
    }
    let ghost parts0 = parts.deep_view();
    let program = parts.remove(0);
    proof {
        assert(parts.deep_view() =~= parts0.drop_first());
        assert(program@ == parts0[0]);
    }
    TestPlan::Launch { program, args: parts }
}

/// Outcome of spawning one service's test command.
pub enum SpawnOutcome {
    /// The process ran to completion with these streams and exit code.
    Exited { exit_code: Option<i32>, stdout: String, stderr: String },
    /// The process could not be started; the detail says why.
    SpawnFailed(String),
}

/// Classify the outcome of one service's test process.  Exit status zero
/// is the sole success criterion; a spawn failure is recorded as a
/// failed run, never raised further.
pub fn finish_service_test(name: &String, outcome: SpawnOutcome, duration_ms: u64) -> (t:
    TestResult)
    ensures
        t.service@ == name@,
        t.duration_ms == duration_ms,
        (match outcome {
            SpawnOutcome::Exited { exit_code, stdout, stderr } => {
                &&& t.success == (exit_code matches Some(c) && c == 0)
                &&& t.exit_code == exit_code
                &&& t.stdout == stdout
                &&& t.stderr == stderr
            },
            SpawnOutcome::SpawnFailed(e) => {
                &&& !t.success
                &&& t.exit_code is None
                &&& t.stdout@.len() == 0
                &&& t.stderr@ == "Failed to execute test command: "@ + e@
            },
        }),
{
    match outcome {
        SpawnOutcome::Exited { exit_code, stdout, stderr } => {
            let success = match exit_code {
                Some(c) => c == 0,
                None => false,
            };
            TestResult {
                service: name.clone(),
                success,
                duration_ms,
                stdout,
                stderr,
                exit_code,
            }
        },
        SpawnOutcome::SpawnFailed(e) => TestResult {
            service: name.clone(),
            success: false,
            duration_ms,
            stdout: String::new(),
            stderr: String::from_str("Failed to execute test command: ").concat(e.as_str()),
            exit_code: None,
        },
    }
}

/// Number of results that passed.
pub open spec fn spec_passed_count(s: Seq<TestResult>) -> int
    decreases s.len(),
{
    if s.len() == 0 {
        0
    } else {
        spec_passed_count(s.drop_last()) + if s.last().success {
            1int
        } else {
            0int
        }
    }
}

/// Count how many test runs passed and how many failed.
pub fn summarize_tests(results: &Vec<TestResult>) -> (r: (usize, usize))
    ensures
        r.0 == spec_passed_count(results@),
        r.0 + r.1 == results@.len(),
{
    let mut passed: usize = 0;
    let mut i: usize = 0;
    proof {
        assert(results@.take(0) =~= Seq::<TestResult>::empty());
    }
    while i < results.len()
        invariant
            i <= results.len(),
            passed <= i,
            passed == spec_passed_count(results@.take(i as int)),
        decreases results.len() - i,
    {
        proof {
            assert(results@.take(i + 1).drop_last() =~= results@.take(i as int));
            assert(results@.take(i + 1).last() == results@[i as int]);
        }
        if results[i].success {
            passed = passed + 1;
        }
        i = i + 1;
    }
    proof {
        assert(results@.take(results@.len() as int) =~= results@);
    }
    (passed, results.len() - passed)
}

/// The first lines of a failing run's error stream, for the report: at
/// most `max_lines` of them, joined by newlines.
pub fn stderr_preview(stderr: &str, max_lines: usize) -> (r: String)
    ensures
        ({
            let ls = lines_of(stderr@);
            let n = if ls.len() <= max_lines {
                ls.len() as int
            } else {
                max_lines as int
            };
            r@ == join_with(ls.take(n), "\n"@)
        }),
{
    let all = split_lines(stderr);
    let n = if all.len() <= max_lines {
        all.len()
    } else {
        max_lines
    };
    let mut firsts: Vec<String> = Vec::new();
    let mut i: usize = 0;
    while i < n
        invariant
            i <= n,
            n <= all.len(),
            all.deep_view() == lines_of(stderr@),
            firsts.deep_view() == all.deep_view().take(i as int),
        decreases n - i,
    {
        let ghost f0 = firsts.deep_view();
        firsts.push(all[i].clone());
        proof {
            assert(firsts.deep_view() =~= f0.push(all.deep_view()[i as int]));
            assert(firsts.deep_view() =~= all.deep_view().take(i + 1));
        }
        i = i + 1;
    }
    join_strings(&firsts, "\n")
}

} // verus!
