//! The service registry model: one entry per service, the resolution of
//! the registry document from an ordered list of candidate locations, and
//! the derivation of probe URLs from the entries.

use vstd::prelude::*;
use crate::text::{eq_str, replace_all, replaced};

verus! {

/// One service of the registry.  Every field the checks read is held as a
/// plain value; optional fields mirror the tolerant registry document.
#[derive(Clone, Debug)]
pub struct RegistryEntry {
    pub name: String,
    pub health_url: Option<String>,
    pub base_url: Option<String>,
    pub metrics_url: Option<String>,
    pub port: Option<u16>,
    pub port_docker: Option<u16>,
    pub framework: Option<String>,
    pub test_command: Option<String>,
    pub test_dependencies: Vec<String>,
    pub requires_gpu: bool,
}

/// Why the registry could not be loaded.  Absence from every candidate
/// location and a malformed document are kept apart on purpose: a present
/// but invalid registry is a hard error, not a skip.
#[derive(Clone, Debug)]
pub enum RegistryError {
    RegistryNotFound,
    RegistryParseError(String),
}

/// The description `RegistryError::describe` renders.
pub open spec fn describe_of(e: RegistryError) -> Seq<char> {
    match e {
        RegistryError::RegistryNotFound => "Service registry not found in any expected location"@,
        RegistryError::RegistryParseError(m) => m@,
    }
}

impl RegistryError {
    /// A human-readable description of the error.
    pub fn describe(&self) -> (r: String)
        ensures
            r@ == describe_of(*self),
    {
        match self {
            RegistryError::RegistryNotFound => String::from_str(
                "Service registry not found in any expected location",
            ),
            RegistryError::RegistryParseError(m) => m.clone(),
        }
    }
}

/// What was found at one candidate location of the registry document.
pub enum CandidateOutcome {
    /// No file at this location.
    Absent,
    /// A file that parsed into these entries.
    Parsed(Vec<RegistryEntry>),
    /// A file that did not parse; the detail says why.
    Malformed(String),
}

/// Index of the first candidate that is present, or the length when every
/// candidate is absent.
pub open spec fn first_present(outcomes: Seq<CandidateOutcome>) -> int
    decreases outcomes.len(),
{
    if outcomes.len() == 0 {
        0
    } else if !(outcomes[0] is Absent) {
        0
    } else {
        1 + first_present(outcomes.drop_first())
    }
}

proof fn lemma_first_present_bounds(outcomes: Seq<CandidateOutcome>)
    ensures
        0 <= first_present(outcomes) <= outcomes.len(),
        first_present(outcomes) < outcomes.len() ==> !(outcomes[first_present(outcomes)]
            is Absent),
        forall|j: int| 0 <= j < first_present(outcomes) ==> outcomes[j] is Absent,
    decreases outcomes.len(),
{
    if outcomes.len() > 0 && outcomes[0] is Absent {
        lemma_first_present_bounds(outcomes.drop_first());
        assert forall|j: int| 0 <= j < first_present(outcomes) implies outcomes[j] is Absent by {
            if j > 0 {
                assert(outcomes.drop_first()[j - 1] == outcomes[j]);
            }
        }
    }
}

proof fn lemma_first_present_skip(outcomes: Seq<CandidateOutcome>, i: int)
    requires
        0 <= i <= outcomes.len(),
        forall|j: int| 0 <= j < i ==> outcomes[j] is Absent,
    ensures
        first_present(outcomes) == i + first_present(outcomes.skip(i)),
    decreases i,
{
    if i == 0 {
        assert(outcomes.skip(0) =~= outcomes);
    } else {
        assert(outcomes[0] is Absent);
        assert forall|j: int| 0 <= j < i - 1 implies outcomes.drop_first()[j] is Absent by {
            assert(outcomes.drop_first()[j] == outcomes[j + 1]);
        }
        lemma_first_present_skip(outcomes.drop_first(), i - 1);
        assert(outcomes.drop_first().skip(i - 1) =~= outcomes.skip(i));
    }
}

/// Resolve the registry from the outcomes of probing each candidate
/// location in order.  The first present candidate decides: a parsed one
/// yields its entries, a malformed one is a parse error, and later
/// candidates are never consulted.  Only when every candidate is absent
/// is the registry reported as not found.
#[verifier::loop_isolation(false)]
pub fn resolve_registry_lookup(outcomes: Vec<CandidateOutcome>) -> (r: Result<
    Vec<RegistryEntry>,
    RegistryError,
>)
    ensures
        ({
            let k = first_present(outcomes@);
            &&& (k == outcomes@.len() ==> (r matches Err(e) && e is RegistryNotFound))
            &&& (k < outcomes@.len() ==> (match outcomes@[k] {
                CandidateOutcome::Parsed(entries) => (r matches Ok(got) && got == entries),
                CandidateOutcome::Malformed(m) => (r matches Err(e) && (e matches
                    RegistryError::RegistryParseError(d) && d@ == m@)),
                CandidateOutcome::Absent => false,
            }))
        }),
{
    proof {
        lemma_first_present_bounds(outcomes@);
    }
    let ghost orig = outcomes@;
    let mut rest = outcomes;
    let total = rest.len();
    let mut i: usize = 0;
    while rest.len() > 0
        invariant
            orig.len() == total as int,
            i <= total,
            i + rest@.len() == orig.len(),
            rest@ == orig.skip(i as int),
            forall|j: int| 0 <= j < i ==> orig[j] is Absent,
        decreases rest.len(),
    {
        let ghost rest0 = rest@;
        let o = rest.remove(0);
        match o {
            CandidateOutcome::Absent => {
                proof {
                    assert(orig[i as int] == rest0[0]);
                    assert(rest@ =~= orig.skip(i + 1));
                }
                i = i + 1;
            },
            CandidateOutcome::Parsed(entries) => {
                proof {
                    lemma_first_present_skip(orig, i as int);
                    assert(rest0[0] == orig[i as int]);
                    assert(first_present(rest0) == 0);
                }
                return Ok(entries);
            },
            CandidateOutcome::Malformed(m) => {
                proof {
                    lemma_first_present_skip(orig, i as int);
                    assert(rest0[0] == orig[i as int]);
                    assert(first_present(rest0) == 0);
                }
                return Err(RegistryError::RegistryParseError(m));
            },
        }
    }
    proof {
        lemma_first_present_skip(orig, i as int);
        assert(orig.skip(i as int).len() == 0);
    }
    Err(RegistryError::RegistryNotFound)
}

/// The ports declared by one entry, in declaration order.
pub open spec fn entry_ports(e: RegistryEntry) -> Seq<u16> {
    (match e.port {
        Some(p) => seq![p],
        None => Seq::empty(),
    }) + (match e.port_docker {
        Some(p) => seq![p],
        None => Seq::empty(),
    })
}

/// All ports declared across the registry, in registry order.
pub open spec fn ports_of(s: Seq<RegistryEntry>) -> Seq<u16>
    decreases s.len(),
{
    if s.len() == 0 {
        Seq::empty()
    } else {
        entry_ports(s[0]) + ports_of(s.drop_first())
    }
}

/// Collect every declared port of the registry.
pub fn collect_ports(entries: &Vec<RegistryEntry>) -> (r: Vec<u16>)
    ensures
        r@ == ports_of(entries@),
{
    let mut out: Vec<u16> = Vec::new();
    let mut i: usize = 0;
    proof {
        assert(entries@.skip(0) =~= entries@);
        assert(out@ + ports_of(entries@) =~= ports_of(entries@));
    }
    while i < entries.len()
        invariant
            i <= entries.len(),
            ports_of(entries@) == out@ + ports_of(entries@.skip(i as int)),
        decreases entries.len() - i,
    {
        let ghost t = entries@.skip(i as int);
        let ghost out0 = out@;
        proof {
            assert(t[0] == entries@[i as int]);
            assert(t.drop_first() =~= entries@.skip(i + 1));
        }
        if let Some(p) = entries[i].port {
            out.push(p);
        }
        if let Some(p) = entries[i].port_docker {
            out.push(p);
        }
        proof {
            assert(out@ =~= out0 + entry_ports(entries@[i as int]));
            assert(out0 + (entry_ports(t[0]) + ports_of(entries@.skip(i + 1))) =~= (out0
                + entry_ports(t[0])) + ports_of(entries@.skip(i + 1)));
        }
        i = i + 1;
    }
    proof {
        assert(entries@.skip(entries@.len() as int) =~= Seq::<RegistryEntry>::empty());
        assert(out@ =~= ports_of(entries@));
    }
    out
}

/// A container-internal URL rewritten to its local equivalent: the
/// container hostname prefix becomes a localhost prefix, and two
/// container ports are mapped to their published local ports.
pub open spec fn localized(u: Seq<char>) -> Seq<char> {
    replaced(
        replaced(replaced(u, "http://fks-"@, "http://localhost:"@), ":3001"@, ":8000"@),
        ":8081"@,
        ":8008"@,
    )
}

/// Rewrite a registry URL to its local equivalent.
pub fn localize_url(u: &str) -> (r: String)
    ensures
        r@ == localized(u@),
{
    proof {
        reveal_strlit("http://fks-");
        reveal_strlit("http://localhost:");
        reveal_strlit(":3001");
        reveal_strlit(":8000");
        reveal_strlit(":8081");
        reveal_strlit(":8008");
    }
    let a = replace_all(u, "http://fks-", "http://localhost:");
    let b = replace_all(a.as_str(), ":3001", ":8000");
    replace_all(b.as_str(), ":8081", ":8008")
}

/// The health probe derived from one entry: its declared health URL, or
/// one constructed from its base URL, both rewritten to local form; an
/// entry with neither URL is not probed.
pub open spec fn health_probe_of(e: RegistryEntry) -> Option<(Seq<char>, Seq<char>)> {
    match e.health_url {
        Some(h) => Some((e.name@, localized(h@))),
        None => match e.base_url {
            Some(b) => Some((e.name@, localized(b@) + "/health"@)),
            None => None,
        },
    }
}

/// The health probes of the whole registry, in registry order.
pub open spec fn health_probes_of(s: Seq<RegistryEntry>) -> Seq<(Seq<char>, Seq<char>)>
    decreases s.len(),
{
    if s.len() == 0 {
        Seq::empty()
    } else {
        (match health_probe_of(s[0]) {
            Some(p) => seq![p],
            None => Seq::empty(),
        }) + health_probes_of(s.drop_first())
    }
}

/// The views of a list of name/URL pairs.
pub open spec fn view_pairs(v: Seq<(String, String)>) -> Seq<(Seq<char>, Seq<char>)> {
    v.map_values(|p: (String, String)| (p.0@, p.1@))
}

/// Derive the name/URL pairs to probe for the health check.
pub fn health_probe_urls(entries: &Vec<RegistryEntry>) -> (r: Vec<(String, String)>)
    ensures
        view_pairs(r@) == health_probes_of(entries@),
{
    let mut out: Vec<(String, String)> = Vec::new();
    let mut i: usize = 0;
    proof {
        assert(entries@.skip(0) =~= entries@);
        assert(view_pairs(out@) =~= Seq::<(Seq<char>, Seq<char>)>::empty());
        assert(view_pairs(out@) + health_probes_of(entries@) =~= health_probes_of(entries@));
    }
    while i < entries.len()
        invariant
            i <= entries.len(),
            health_probes_of(entries@) == view_pairs(out@) + health_probes_of(
                entries@.skip(i as int),
            ),
        decreases entries.len() - i,
    {
        let ghost t = entries@.skip(i as int);
        let ghost out0 = out@;
        proof {
            assert(t[0] == entries@[i as int]);
            assert(t.drop_first() =~= entries@.skip(i + 1));
        }
        let e = &entries[i];
        match &e.health_url {
            Some(h) => {
                let url = localize_url(h.as_str());
                out.push((e.name.clone(), url));
            },
            None => {
                match &e.base_url {
                    Some(b) => {
                        let url = localize_url(b.as_str()).concat("/health");
                        proof {
                            reveal_strlit("/health");
                        }
                        out.push((e.name.clone(), url));
                    },
                    None => {},
                }
            },
        }
        proof {
            assert(view_pairs(out@) =~= view_pairs(out0) + (match health_probe_of(t[0]) {
                Some(p) => seq![p],
                None => Seq::<(Seq<char>, Seq<char>)>::empty(),
            }));
            assert(view_pairs(out0) + ((match health_probe_of(t[0]) {
                Some(p) => seq![p],
                None => Seq::<(Seq<char>, Seq<char>)>::empty(),
            }) + health_probes_of(entries@.skip(i + 1))) =~= view_pairs(out@) + health_probes_of(
                entries@.skip(i + 1),
            ));
        }
        i = i + 1;
    }
    proof {
        assert(entries@.skip(entries@.len() as int) =~= Seq::<RegistryEntry>::empty());
        assert(view_pairs(out@) + health_probes_of(Seq::<RegistryEntry>::empty()) =~= view_pairs(
            out@,
        ));
    }
    out
}

/// The metrics probe derived from one entry.  The central aggregator
/// service is skipped; otherwise the declared metrics URL is used, or one
/// is derived from the base URL, or from the health URL; the chosen URL
/// is rewritten to local form.
pub open spec fn metrics_probe_of(e: RegistryEntry) -> Option<(Seq<char>, Seq<char>)> {
    if e.name@ == "fks_monitor"@ {
        None
    } else {
        match e.metrics_url {
            Some(m) => Some((e.name@, localized(m@))),
            None => match e.base_url {
                Some(b) => Some((e.name@, localized(b@ + "/metrics"@))),
                None => match e.health_url {
                    Some(h) => Some((e.name@, localized(replaced(h@, "/health"@, "/metrics"@)))),
                    None => None,
                },
            },
        }
    }
}

/// The metrics probes of the whole registry, in registry order.
pub open spec fn metrics_probes_of(s: Seq<RegistryEntry>) -> Seq<(Seq<char>, Seq<char>)>
    decreases s.len(),
{
    if s.len() == 0 {
        Seq::empty()
    } else {
        (match metrics_probe_of(s[0]) {
            Some(p) => seq![p],
            None => Seq::empty(),
        }) + metrics_probes_of(s.drop_first())
    }
}

/// Derive the name/URL pairs to probe for the metrics check.
pub fn metrics_probe_urls(entries: &Vec<RegistryEntry>) -> (r: Vec<(String, String)>)
    ensures
        view_pairs(r@) == metrics_probes_of(entries@),
{
    let mut out: Vec<(String, String)> = Vec::new();
    let mut i: usize = 0;
    proof {
        assert(entries@.skip(0) =~= entries@);
        assert(view_pairs(out@) =~= Seq::<(Seq<char>, Seq<char>)>::empty());
        assert(view_pairs(out@) + metrics_probes_of(entries@) =~= metrics_probes_of(entries@));
    }
    while i < entries.len()
        invariant
            i <= entries.len(),
            metrics_probes_of(entries@) == view_pairs(out@) + metrics_probes_of(
                entries@.skip(i as int),
            ),
        decreases entries.len() - i,
    {
        let ghost t = entries@.skip(i as int);
        let ghost out0 = out@;
        proof {
            assert(t[0] == entries@[i as int]);
            assert(t.drop_first() =~= entries@.skip(i + 1));
        }
        let e = &entries[i];
        if !eq_str(e.name.as_str(), "fks_monitor") {
            match &e.metrics_url {
                Some(m) => {
                    let url = localize_url(m.as_str());
                    out.push((e.name.clone(), url));
                },
                None => {
                    match &e.base_url {
                        Some(b) => {
                            let raw = b.clone().concat("/metrics");
                            proof {
                                reveal_strlit("/metrics");
                            }
                            let url = localize_url(raw.as_str());
                            out.push((e.name.clone(), url));
                        },
                        None => {
                            match &e.health_url {
                                Some(h) => {
                                    proof {
                                        reveal_strlit("/health");
                                        reveal_strlit("/metrics");
                                    }
                                    let raw = replace_all(h.as_str(), "/health", "/metrics");
                                    let url = localize_url(raw.as_str());
                                    out.push((e.name.clone(), url));
                                },
                                None => {},
                            }
                        },
                    }
                },
            }
        }
        proof {
            assert(view_pairs(out@) =~= view_pairs(out0) + (match metrics_probe_of(t[0]) {
                Some(p) => seq![p],
                None => Seq::<(Seq<char>, Seq<char>)>::empty(),
            }));
            assert(view_pairs(out0) + ((match metrics_probe_of(t[0]) {
                Some(p) => seq![p],
                None => Seq::<(Seq<char>, Seq<char>)>::empty(),
            }) + metrics_probes_of(entries@.skip(i + 1))) =~= view_pairs(out@) + metrics_probes_of(
                entries@.skip(i + 1),
            ));
        }
        i = i + 1;
    }
    proof {
        assert(entries@.skip(entries@.len() as int) =~= Seq::<RegistryEntry>::empty());
        assert(view_pairs(out@) + metrics_probes_of(Seq::<RegistryEntry>::empty()) =~= view_pairs(
            out@,
        ));
    }
    out
}

} // verus!
