use biscuit_playground::position::{get_position, SourcePosition};

fn pos(line_start: usize, column_start: usize, line_end: usize, column_end: usize) -> SourcePosition {
    SourcePosition { line_start, column_start, line_end, column_end }
}

#[test]
fn span_at_start_of_text() {
    assert_eq!(get_position("ab\ncd", 0, 2), pos(0, 0, 0, 3));
}

#[test]
fn span_on_second_line() {
    assert_eq!(get_position("ab\ncd", 3, 2), pos(1, 0, 1, 3));
}

#[test]
fn span_across_a_newline() {
    assert_eq!(get_position("ab\ncd", 1, 3), pos(0, 1, 1, 2));
}

#[test]
fn zero_length_span_is_one_column_wide() {
    let p = get_position("ab\ncd", 4, 0);
    assert_eq!(p, pos(1, 1, 1, 2));
    assert_eq!(p.line_end, p.line_start);
    assert_eq!(p.column_end, p.column_start + 1);
}

#[test]
fn repeated_text_resolves_to_its_own_occurrence() {
    let text = "check if a;\ncheck if a;";
    assert_eq!(get_position(text, 0, 10), pos(0, 0, 0, 11));
    assert_eq!(get_position(text, 12, 10), pos(1, 0, 1, 11));
}

#[test]
fn empty_text() {
    assert_eq!(get_position("", 0, 0), pos(0, 0, 0, 1));
}

#[test]
fn end_never_before_start_and_recovers_span() {
    let text = "a\n\nbc d\nef";
    let bytes = text.as_bytes();
    for start in 0..text.len() {
        for len in 1..=(text.len() - start) {
            let p = get_position(text, start, len);
            assert!((p.line_end, p.column_end) >= (p.line_start, p.column_start));
            let line_offset = |line: usize| -> usize {
                if line == 0 {
                    0
                } else {
                    bytes.iter().enumerate().filter(|(_, b)| **b == b'\n').nth(line - 1).unwrap().0 + 1
                }
            };
            let s = line_offset(p.line_start) + p.column_start;
            let e = line_offset(p.line_end) + p.column_end - 1;
            assert_eq!(&text[s..e], &text[start..start + len]);
        }
    }
}
