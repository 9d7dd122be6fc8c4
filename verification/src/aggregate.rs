//! Aggregation of check results into an overall verdict, and ordering of
//! results for display.

use vstd::prelude::*;
use vstd::multiset::Multiset;
use crate::check::CheckResult;
use crate::text::dec_of;

verus! {

/// Number of results whose effective outcome is a failure.
pub open spec fn spec_fail_count(s: Seq<CheckResult>) -> int
    decreases s.len(),
{
    if s.len() == 0 {
        0
    } else {
        spec_fail_count(s.drop_last()) + if s.last().ok {
            0int
        } else {
            1int
        }
    }
}

/// The overall verdict of a run: how many checks ran, how many failed
/// after the severity policy was applied, and whether the run passed.
#[derive(Clone, Copy, PartialEq, Eq, Structural, Debug)]
pub struct Verdict {
    pub total: usize,
    pub failed: usize,
    pub ok: bool,
}

/// Reduce a list of check results to a verdict.  The run passes exactly
/// when no result carries an effective failure.
pub fn aggregate(results: &Vec<CheckResult>) -> (v: Verdict)
    ensures
        v.total == results@.len(),
        v.failed == spec_fail_count(results@),
        v.ok == (spec_fail_count(results@) == 0),
{
    let mut failed: usize = 0;
    let mut i: usize = 0;
    proof {
        assert(results@.take(0) =~= Seq::<CheckResult>::empty());
    }
    while i < results.len()
        invariant
            i <= results.len(),
            failed <= i,
            failed == spec_fail_count(results@.take(i as int)),
        decreases results.len() - i,
    {
        proof {
            assert(results@.take(i + 1).drop_last() =~= results@.take(i as int));
            assert(results@.take(i + 1).last() == results@[i as int]);
        }
        if !results[i].ok {
            failed = failed + 1;
        }
        i = i + 1;
    }
    proof {
        assert(results@.take(results@.len() as int) =~= results@);
    }
    Verdict { total: results.len(), failed, ok: failed == 0 }
}

/// The verdict of a run depends only on the effective outcomes of its
/// checks: two result lists that agree on every `ok` field have the same
/// failure count, however their timings and messages differ.  Together
/// with the classifiers being functions of the probe findings alone, this
/// makes a repeated run over an unchanged environment classify alike.
pub proof fn lemma_verdict_ignores_timing(a: Seq<CheckResult>, b: Seq<CheckResult>)
    requires
        a.len() == b.len(),
        forall|j: int| 0 <= j < a.len() ==> a[j].ok == b[j].ok,
    ensures
        spec_fail_count(a) == spec_fail_count(b),
    decreases a.len(),
{
    if a.len() > 0 {
        assert forall|j: int| 0 <= j < a.drop_last().len() implies a.drop_last()[j].ok
            == b.drop_last()[j].ok by {
            assert(a.drop_last()[j] == a[j]);
            assert(b.drop_last()[j] == b[j]);
        }
        lemma_verdict_ignores_timing(a.drop_last(), b.drop_last());
        assert(a.last().ok == b.last().ok);
    }
}

/// Results ordered by their stable display number.
pub open spec fn sorted_by_number(s: Seq<CheckResult>) -> bool {
    forall|i: int, j: int| 0 <= i < j < s.len() ==> s[i].number <= s[j].number
}

/// Sort results into display order.  Completion order of a fan-out batch
/// is not deterministic, so the report re-sorts by sequence number.
pub fn sort_by_number(results: Vec<CheckResult>) -> (r: Vec<CheckResult>)
    ensures
        sorted_by_number(r@),
        r@.to_multiset() == results@.to_multiset(),
{
    broadcast use vstd::seq_lib::to_multiset_insert;
    broadcast use vstd::seq_lib::to_multiset_remove;
    broadcast use vstd::seq_lib::to_multiset_contains;
    broadcast use vstd::multiset::group_multiset_axioms;

    let ghost orig = results@;
    let mut rest = results;
    let mut out: Vec<CheckResult> = Vec::new();
    while rest.len() > 0
        invariant
            sorted_by_number(out@),
            out@.to_multiset().add(rest@.to_multiset()) == orig.to_multiset(),
        decreases rest.len(),
    {
        let ghost rest0 = rest@;
        let ghost out0 = out@;
        let x = rest.remove(0);
        proof {
            assert(rest0.contains(rest0[0]));
            vstd::seq_lib::to_multiset_remove(rest0, 0);
            assert(rest@.to_multiset() == rest0.to_multiset().remove(x));
        }
        let mut p: usize = 0;
        while p < out.len() && out[p].number <= x.number
            invariant
                p <= out.len(),
                out@ == out0,
                forall|k: int| 0 <= k < p ==> out@[k].number <= x.number,
            decreases out.len() - p,
        {
            p = p + 1;
        }
        out.insert(p, x);
        proof {
            out0.insert_ensures(p as int, x);
            assert forall|i: int, j: int| 0 <= i < j < out@.len() implies out@[i].number
                <= out@[j].number by {
                if j < p {
                    assert(out@[i] == out0[i] && out@[j] == out0[j]);
                } else if i > p {
                    assert(out@[i] == out0[i - 1] && out@[j] == out0[j - 1]);
                } else if i == p {
                    assert(out@[i] == x && out@[j] == out0[j - 1]);
                    assert(p < out0.len());
                    assert(out0[p as int].number > x.number);
                    if j - 1 > p {
                        assert(out0[p as int].number <= out0[j - 1].number);
                    }
                } else if j == p {
                    assert(out@[i] == out0[i] && out@[j] == x);
                } else {
                    assert(i < p && j > p);
                    assert(out@[i] == out0[i] && out@[j] == out0[j - 1]);
                    if p < out0.len() {
                        assert(out0[i].number <= x.number);
                        assert(out@[j] == out0[j - 1]);
                        if j - 1 == p {
                            assert(out0[p as int].number > x.number);
                        }
                    }
                    assert(out0[i].number <= x.number);
                    if j - 1 == p {
                        assert(out0[j - 1].number >= x.number);
                    } else {
                        assert(out0[p as int].number <= out0[j - 1].number);
                    }
                }
            }
            vstd::seq_lib::to_multiset_insert(out0, p as int, x);
            assert(out@.to_multiset() == out0.to_multiset().insert(x));
            vstd::seq_lib::to_multiset_contains(rest0, x);
            assert(rest0.to_multiset().count(x) > 0);
            assert(out@.to_multiset().add(rest@.to_multiset()) =~= out0.to_multiset().add(
                rest0.to_multiset(),
            ));
        }
    }
    proof {
        assert(rest@.to_multiset() =~= Multiset::<CheckResult>::empty());
        assert(out@.to_multiset() =~= orig.to_multiset());
    }
    out
}

/// Elapsed seconds with two decimal places, from a millisecond count:
/// the whole seconds, a dot, then hundredths padded to two digits.
pub open spec fn seconds_text(ms: nat) -> Seq<char> {
    dec_of(ms / 1000) + "."@ + (if (ms % 1000) / 10 < 10 {
        "0"@ + dec_of((ms % 1000) / 10)
    } else {
        dec_of((ms % 1000) / 10)
    })
}

/// Render a duration in milliseconds as seconds with two decimals.
pub fn format_seconds(ms: u64) -> (r: String)
    ensures
        r@ == seconds_text(ms as nat),
{
    let secs = ms / 1000;
    let centis = (ms % 1000) / 10;
    let mut r = crate::text::u64_to_string(secs);
    r.append(".");
    proof {
        reveal_strlit(".");
        reveal_strlit("0");
    }
    if centis < 10 {
        r.append("0");
        let d = crate::text::u64_to_string(centis);
        let out = r.concat(d.as_str());
        proof {
            assert(out@ =~= seconds_text(ms as nat));
        }
        out
    } else {
        let d = crate::text::u64_to_string(centis);
        let out = r.concat(d.as_str());
        proof {
            assert(out@ =~= seconds_text(ms as nat));
        }
        out
    }
}

} // verus!
