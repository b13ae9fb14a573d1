use biscuit_playground::editor::{Block, FailedCheck, Marker, Outcome};
use biscuit_playground::position::SourcePosition;
use biscuit_playground::reconcile::{block_markers, markers_for_checks, verifier_markers};

fn at(line: usize) -> SourcePosition {
    SourcePosition { line_start: line, column_start: 0, line_end: line, column_end: 5 }
}

fn block(n: usize) -> Block {
    Block { checks: (0..n).map(|i| (at(i), true)).collect(), enabled: true }
}

fn failed(block_id: usize, check_id: usize) -> FailedCheck {
    FailedCheck { verifier: false, block_id, check_id }
}

#[test]
fn unreported_checks_stay_ok() {
    let blocks = vec![block(2), block(1)];
    let m = block_markers(&Outcome::ChecksFailed(vec![failed(1, 0)]), &blocks);
    assert_eq!(m.len(), 2);
    assert_eq!(m[0], vec![Marker { ok: true, position: at(0) }, Marker { ok: true, position: at(1) }]);
    assert_eq!(m[1], vec![Marker { ok: false, position: at(0) }]);
}

#[test]
fn reported_check_fails_and_repeat_is_idempotent() {
    let checks = block(3).checks;
    let once = markers_for_checks(&checks, &Outcome::ChecksFailed(vec![failed(0, 1)]), false, 0);
    let twice = markers_for_checks(&checks, &Outcome::ChecksFailed(vec![failed(0, 1), failed(0, 1)]), false, 0);
    assert_eq!(once, twice);
    assert!(once[0].ok);
    assert!(!once[1].ok);
    assert!(once[2].ok);
}

#[test]
fn verifier_failure_does_not_touch_blocks() {
    let fails = vec![FailedCheck { verifier: true, block_id: 0, check_id: 0 }];
    let blocks = vec![block(1)];
    let m = block_markers(&Outcome::ChecksFailed(fails.clone()), &blocks);
    assert!(m[0][0].ok);
    let v = verifier_markers(&Outcome::ChecksFailed(fails), &block(1).checks, &vec![at(7)]);
    assert_eq!(v, vec![Marker { ok: false, position: at(0) }]);
}

#[test]
fn allowed_gives_one_policy_marker_first() {
    let v = verifier_markers(&Outcome::Allowed(1), &block(1).checks, &vec![at(5), at(6)]);
    assert_eq!(v, vec![Marker { ok: true, position: at(6) }, Marker { ok: true, position: at(0) }]);
}

#[test]
fn denied_gives_one_failing_policy_marker() {
    let v = verifier_markers(&Outcome::Denied(0), &Vec::new(), &vec![at(5)]);
    assert_eq!(v, vec![Marker { ok: false, position: at(5) }]);
}

#[test]
fn failed_checks_and_errors_give_no_policy_marker() {
    let policies = vec![at(5)];
    assert!(verifier_markers(&Outcome::ChecksFailed(vec![failed(0, 0)]), &Vec::new(), &policies).is_empty());
    assert!(verifier_markers(&Outcome::EvaluationError, &Vec::new(), &policies).is_empty());
}

#[test]
fn unknown_policy_index_gives_no_marker() {
    assert!(verifier_markers(&Outcome::Allowed(3), &Vec::new(), &vec![at(5)]).is_empty());
}
