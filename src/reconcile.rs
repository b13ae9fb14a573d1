use vstd::prelude::*;
use crate::position::SourcePosition;
use crate::editor::{Block, FailedCheck, Marker, Outcome};

verus! {

/// Whether `fails` reports check `k` of the verifier (`verifier`) or of
/// block `block`.
pub open spec fn is_reported(fails: Seq<FailedCheck>, verifier: bool, block: int, k: int) -> bool {
    exists|j: int| 0 <= j < fails.len() && reports(#[trigger] fails[j], verifier, block, k)
}

/// Whether the failed check `f` is check `k` of the verifier (`verifier`)
/// or of block `block`.
pub open spec fn reports(f: FailedCheck, verifier: bool, block: int, k: int) -> bool {
    f.verifier == verifier && (verifier || f.block_id == block) && f.check_id == k
}

/// The failed checks that an outcome reports.
pub open spec fn failures_of(o: Outcome) -> Seq<FailedCheck> {
    match o {
        Outcome::ChecksFailed(v) => v@,
        _ => Seq::empty(),
    }
}

/// The markers of a list of checks: each keeps its flag unless the outcome
/// reports it as failed.
pub open spec fn check_markers(
    checks: Seq<(SourcePosition, bool)>,
    o: Outcome,
    verifier: bool,
    block: int,
) -> Seq<Marker> {
    Seq::new(
        checks.len(),
        |k: int|
            Marker {
                ok: checks[k].1 && !is_reported(failures_of(o), verifier, block, k),
                position: checks[k].0,
            },
    )
}

/// The marker of the policy that decided the outcome, if it allowed or
/// denied with the index of a known policy.
pub open spec fn policy_markers(o: Outcome, policies: Seq<SourcePosition>) -> Seq<Marker> {
    match o {
        Outcome::Allowed(i) => if i < policies.len() {
            seq![Marker { ok: true, position: policies[i as int] }]
        } else {
            Seq::empty()
        },
        Outcome::Denied(i) => if i < policies.len() {
            seq![Marker { ok: false, position: policies[i as int] }]
        } else {
            Seq::empty()
        },
        _ => Seq::empty(),
    }
}


/// A check that the outcome does not report keeps the optimistic flag that
/// it was registered with.
pub proof fn lemma_unreported_check_passes(
    checks: Seq<(SourcePosition, bool)>,
    o: Outcome,
    verifier: bool,
    block: int,
    k: int,
)
    requires
        0 <= k < checks.len(),
        checks[k].1,
        !is_reported(failures_of(o), verifier, block, k),
    ensures
        check_markers(checks, o, verifier, block)[k].ok,
{
}

/// A check that the outcome reports as failed gets a failing marker.
pub proof fn lemma_reported_check_fails(
    checks: Seq<(SourcePosition, bool)>,
    o: Outcome,
    verifier: bool,
    block: int,
    k: int,
    j: int,
)
    requires
        0 <= k < checks.len(),
        0 <= j < failures_of(o).len(),
        reports(failures_of(o)[j], verifier, block, k),
    ensures
        !check_markers(checks, o, verifier, block)[k].ok,
{
}

/// Reporting a failed check once more changes no marker.
pub proof fn lemma_repeated_report_idempotent(
    checks: Seq<(SourcePosition, bool)>,
    o1: Outcome,
    o2: Outcome,
    f: FailedCheck,
    verifier: bool,
    block: int,
)
    requires
        failures_of(o1).contains(f),
        failures_of(o2) == failures_of(o1).push(f),
    ensures
        check_markers(checks, o2, verifier, block) == check_markers(checks, o1, verifier, block),
{
    let f1 = failures_of(o1);
    let f2 = failures_of(o2);
    assert forall|k: int| is_reported(f2, verifier, block, k) == is_reported(f1, verifier, block, k) by {
        if is_reported(f2, verifier, block, k) {
            let j = choose|j: int| 0 <= j < f2.len() && reports(#[trigger] f2[j], verifier, block, k);
            if j == f1.len() {
                let i = choose|i: int| 0 <= i < f1.len() && f1[i] == f;
                assert(reports(f1[i], verifier, block, k));
            } else {
                assert(f2[j] == f1[j]);
            }
        }
        if is_reported(f1, verifier, block, k) {
            let j = choose|j: int| 0 <= j < f1.len() && reports(#[trigger] f1[j], verifier, block, k);
            assert(f2[j] == f1[j]);
        }
    }
    assert(check_markers(checks, o2, verifier, block) =~= check_markers(checks, o1, verifier, block));
}

/// An outcome that allows or denies with a known policy gives exactly one
/// policy marker; one that reports failed checks or an evaluation error
/// gives none.
pub proof fn lemma_policy_marker_count(o: Outcome, policies: Seq<SourcePosition>)
    ensures
        (o matches Outcome::Allowed(i) && i < policies.len()) ==> policy_markers(o, policies).len() == 1,
        (o matches Outcome::Denied(i) && i < policies.len()) ==> policy_markers(o, policies).len() == 1,
        (o is ChecksFailed || o is EvaluationError) ==> policy_markers(o, policies).len() == 0,
{
}

/// Whether `fails` reports check `k` of the verifier or of block `block`.
fn reported(fails: &Vec<FailedCheck>, verifier: bool, block: usize, k: usize) -> (r: bool)
    ensures
        r == is_reported(fails@, verifier, block as int, k as int),
{
    let mut j: usize = 0;
    while j < fails.len()
        invariant
            j <= fails@.len(),
            forall|i: int| 0 <= i < j ==> !reports(#[trigger] fails@[i], verifier, block as int, k as int),
        decreases fails@.len() - j,
    {
        let f = fails[j];
        if f.verifier == verifier && (verifier || f.block_id == block) && f.check_id == k {
            assert(reports(fails@[j as int], verifier, block as int, k as int));
            return true;
        }
        j = j + 1;
    }
    false
}

/// The markers of the checks of the verifier (`verifier`) or of block
/// `block`, in their registration order, with the flags that the outcome
/// leaves them.
pub fn markers_for_checks(
    checks: &Vec<(SourcePosition, bool)>,
    outcome: &Outcome,
    verifier: bool,
    block: usize,
) -> (r: Vec<Marker>)
    ensures
        r@ == check_markers(checks@, *outcome, verifier, block as int),
{
    let empty: Vec<FailedCheck> = Vec::new();
    let fails = match outcome {
        Outcome::ChecksFailed(v) => v,
        _ => &empty,
    };
    assert(fails@ == failures_of(*outcome));
    let mut r: Vec<Marker> = Vec::new();
    let mut k: usize = 0;
    while k < checks.len()
        invariant
            k <= checks@.len(),
            fails@ == failures_of(*outcome),
            r@ == check_markers(checks@, *outcome, verifier, block as int).subrange(0, k as int),
        decreases checks@.len() - k,
    {
        let (position, ok) = checks[k];
        let failed = reported(fails, verifier, block, k);
        r.push(Marker { ok: ok && !failed, position });
        k = k + 1;
    }
    assert(r@ == check_markers(checks@, *outcome, verifier, block as int));
    r
}

/// The markers of every block's checks, block by block; block 0 is the
/// authority block.
pub fn block_markers(outcome: &Outcome, blocks: &Vec<Block>) -> (r: Vec<Vec<Marker>>)
    ensures
        r@.len() == blocks@.len(),
        forall|i: int|
            0 <= i < blocks@.len() ==> (#[trigger] r@[i])@ == check_markers(
                blocks@[i].checks@,
                *outcome,
                false,
                i,
            ),
{
    let mut r: Vec<Vec<Marker>> = Vec::new();
    let mut i: usize = 0;
    while i < blocks.len()
        invariant
            i <= blocks@.len(),
            r@.len() == i,
            forall|b: int|
                0 <= b < i ==> (#[trigger] r@[b])@ == check_markers(
                    blocks@[b].checks@,
                    *outcome,
                    false,
                    b,
                ),
        decreases blocks@.len() - i,
    {
        let m = markers_for_checks(&blocks[i].checks, outcome, false, i);
        r.push(m);
        i = i + 1;
    }
    r
}

/// The markers of the verifier's code: first the marker of the deciding
/// policy, if the outcome allowed or denied, then one per check.
pub fn verifier_markers(
    outcome: &Outcome,
    checks: &Vec<(SourcePosition, bool)>,
    policies: &Vec<SourcePosition>,
) -> (r: Vec<Marker>)
    ensures
        r@ == policy_markers(*outcome, policies@) + check_markers(checks@, *outcome, true, 0),
{
    let mut r: Vec<Marker> = Vec::new();
    match outcome {
        Outcome::Allowed(i) => {
            if *i < policies.len() {
                r.push(Marker { ok: true, position: policies[*i] });
            }
        },
        Outcome::Denied(i) => {
            if *i < policies.len() {
                r.push(Marker { ok: false, position: policies[*i] });
            }
        },
        _ => {},
    }
    assert(r@ == policy_markers(*outcome, policies@));
    let mut m = markers_for_checks(checks, outcome, true, 0);
    r.append(&mut m);
    r
}

} // verus!
