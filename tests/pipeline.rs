use biscuit_playground::assemble::get_parse_errors;
use biscuit_playground::biscuit::Failure;
use biscuit_playground::editor::{FailedCheck, Marker, Outcome};
use biscuit_playground::pipeline::{execute_inner, BiscuitQuery};
use biscuit_playground::position::SourcePosition;

fn request(blocks: &[&str], verifier: Option<&str>, query: Option<&str>) -> BiscuitQuery {
    BiscuitQuery {
        token_blocks: blocks.iter().map(|s| s.to_string()).collect(),
        verifier_code: verifier.map(|s| s.to_string()),
        query: query.map(|s| s.to_string()),
    }
}

fn one_line(start: usize, end: usize) -> SourcePosition {
    SourcePosition { line_start: 0, column_start: start, line_end: 0, column_end: end + 1 }
}

#[test]
fn passing_check_and_allowing_policy() {
    let r = execute_inner(request(&["check if true;"], Some("allow if true;"), None)).unwrap();
    assert_eq!(r.verifier_result.as_deref(), Some("Success"));
    assert!(matches!(r.outcome, Some(Outcome::Allowed(0))));
    assert_eq!(r.token_blocks.len(), 1);
    assert!(r.token_blocks[0].errors.is_empty());
    assert_eq!(r.token_blocks[0].markers, vec![Marker { ok: true, position: one_line(0, 13) }]);
    let ed = r.verifier_editor.unwrap();
    assert_eq!(ed.markers, vec![Marker { ok: true, position: one_line(0, 13) }]);
    assert!(!r.token_content.is_empty());
}

#[test]
fn failing_authority_check() {
    let r = execute_inner(request(&["check if false;"], Some("allow if true;"), None)).unwrap();
    assert_eq!(r.token_blocks[0].markers, vec![Marker { ok: false, position: one_line(0, 14) }]);
    let ed = r.verifier_editor.unwrap();
    assert!(ed.markers.is_empty());
    let text = r.verifier_result.unwrap();
    assert!(text.starts_with("Error: "));
    assert!(text.contains("FailedChecks"));
    match r.outcome {
        Some(Outcome::ChecksFailed(v)) => {
            assert_eq!(v, vec![FailedCheck { verifier: false, block_id: 0, check_id: 0 }])
        }
        _ => panic!("expected failed checks"),
    }
}

#[test]
fn failing_check_in_extension_block() {
    let r = execute_inner(request(&["check if true;", "check if true;\ncheck if false;"], Some("allow if true;"), None)).unwrap();
    assert_eq!(r.token_blocks.len(), 2);
    assert_eq!(r.token_blocks[0].markers.len(), 1);
    assert!(r.token_blocks[0].markers[0].ok);
    let m = &r.token_blocks[1].markers;
    assert_eq!(m.len(), 2);
    assert!(m[0].ok);
    assert!(!m[1].ok);
    assert_eq!(m[1].position, SourcePosition { line_start: 1, column_start: 0, line_end: 1, column_end: 15 });
}

#[test]
fn failing_verifier_check_and_denying_policy() {
    let r = execute_inner(request(&[], Some("check if false;\ndeny if true;"), None)).unwrap();
    assert!(r.token_blocks.is_empty());
    assert!(r.token_content.is_empty());
    let ed = r.verifier_editor.unwrap();
    assert!(ed.errors.is_empty());
    assert_eq!(ed.markers.len(), 1);
    assert!(!ed.markers[0].ok);
    assert_eq!(ed.markers[0].position.line_start, 0);
}

#[test]
fn denying_policy_gets_failing_marker() {
    let r = execute_inner(request(&["check if true;"], Some("deny if true;"), None)).unwrap();
    let ed = r.verifier_editor.unwrap();
    assert_eq!(ed.markers, vec![Marker { ok: false, position: one_line(0, 12) }]);
    assert!(r.token_blocks[0].markers[0].ok);
}

#[test]
fn malformed_authority_block() {
    let text = "check if true;\nthis is not ( valid";
    let r = execute_inner(request(&[text], Some("allow if true;"), None)).unwrap();
    let ed = &r.token_blocks[0];
    assert!(!ed.errors.is_empty());
    for e in ed.errors.iter() {
        assert!(e.position.line_start <= 1);
        assert!(e.position.line_end <= 1);
        assert!(!e.message.is_empty());
    }
    assert!(ed.markers.is_empty());
    assert!(!r.token_content.is_empty());
    assert!(r.verifier_result.is_some());
}

#[test]
fn malformed_verifier_code() {
    let r = execute_inner(request(&["check if true;"], Some("allow if (;"), Some("fact($x) <- something($x)"))).unwrap();
    let ed = r.verifier_editor.unwrap();
    assert!(!ed.errors.is_empty());
    assert!(ed.markers.is_empty());
    assert!(r.verifier_result.unwrap().starts_with("Error: "));
    assert_eq!(r.token_blocks[0].markers, vec![Marker { ok: true, position: one_line(0, 13) }]);
    assert!(r.query_result.is_empty());
}

#[test]
fn verifier_runs_without_authority() {
    let r = execute_inner(request(&["this is ( not valid"], Some("allow if true;"), None)).unwrap();
    assert!(!r.token_blocks[0].errors.is_empty());
    assert!(r.token_blocks[0].markers.is_empty());
    assert_eq!(r.verifier_result.as_deref(), Some("Success"));
    let ed = r.verifier_editor.unwrap();
    assert_eq!(ed.markers, vec![Marker { ok: true, position: one_line(0, 13) }]);
}

#[test]
fn no_verifier_code() {
    let r = execute_inner(request(&["check if true;"], None, None)).unwrap();
    assert!(r.verifier_editor.is_none());
    assert!(r.verifier_result.is_none());
    assert!(r.token_blocks[0].markers.is_empty());
}

#[test]
fn query_after_verification() {
    let r = execute_inner(request(
        &[],
        Some("something(\"a\");\nsomething(\"b\");\nallow if true;"),
        Some("fact($x) <- something($x)"),
    ))
    .unwrap();
    assert_eq!(r.verifier_result.as_deref(), Some("Success"));
    assert_eq!(r.query_result.len(), 2);
    let mut terms: Vec<String> = r.query_result.iter().map(|f| {
        assert_eq!(f.name, "fact");
        assert_eq!(f.terms.len(), 1);
        f.terms[0].clone()
    }).collect();
    terms.sort();
    assert_eq!(terms, vec!["\"a\"".to_string(), "\"b\"".to_string()]);
    assert!(r.verifier_world.iter().any(|f| f.name == "something"));
}

#[test]
fn empty_query_gives_nothing() {
    let r = execute_inner(request(&[], Some("something(\"a\");\nallow if true;"), Some(""))).unwrap();
    assert!(r.query_result.is_empty());
}

#[test]
fn parse_errors_keep_order_and_default_message() {
    let text = "ab\ncd";
    let failures = vec![
        Failure { start: 3, len: 2, message: None, code: "Tag".to_string() },
        Failure { start: 0, len: 1, message: Some("bad".to_string()), code: "Char".to_string() },
    ];
    let errors = get_parse_errors(text, &failures);
    assert_eq!(errors.len(), 2);
    assert_eq!(errors[0].message, "error: Tag");
    assert_eq!(errors[0].position, SourcePosition { line_start: 1, column_start: 0, line_end: 1, column_end: 3 });
    assert_eq!(errors[1].message, "bad");
    assert_eq!(errors[1].position, SourcePosition { line_start: 0, column_start: 0, line_end: 0, column_end: 2 });
}

#[test]
fn set_literal_in_block_is_refused_without_parsing() {
    let r = execute_inner(request(&["check if true;\nf([1, \"a\"]);"], Some("allow if true;"), None)).unwrap();
    let ed = &r.token_blocks[0];
    assert_eq!(ed.errors.len(), 1);
    assert_eq!(ed.errors[0].message, "set literals are not supported");
    assert_eq!(ed.errors[0].position, SourcePosition { line_start: 1, column_start: 2, line_end: 1, column_end: 4 });
    assert!(ed.markers.is_empty());
    assert_eq!(r.verifier_result.as_deref(), Some("Success"));
}

#[test]
fn set_literal_in_verifier_code_is_refused() {
    let r = execute_inner(request(&["check if true;"], Some("allow if f([1, \"a\"]);"), None)).unwrap();
    let ed = r.verifier_editor.unwrap();
    assert_eq!(ed.errors.len(), 1);
    assert!(ed.markers.is_empty());
    assert!(r.verifier_result.unwrap().starts_with("Error: "));
    assert!(matches!(r.outcome, Some(Outcome::EvaluationError)));
    assert!(r.token_blocks[0].markers[0].ok);
}

#[test]
fn query_with_set_literal_gives_nothing() {
    let r = execute_inner(request(
        &[],
        Some("f(\"a\");\nallow if true;"),
        Some("q($x) <- f($x), [1, \"a\"].contains($x)"),
    ))
    .unwrap();
    assert!(r.query_result.is_empty());
    assert_eq!(r.verifier_result.as_deref(), Some("Success"));
}

#[test]
fn verifier_still_evaluates_when_code_fails_to_parse() {
    let r = execute_inner(request(&[], Some("f(\"a\");\nallow if (;"), None)).unwrap();
    assert!(!r.verifier_editor.unwrap().errors.is_empty());
    assert!(r.verifier_result.is_some());
}
