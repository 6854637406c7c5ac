use astscan::edit::SourceEdit;
use astscan::review::line_of_offset;
use astscan::scan::{SessionOutcome, rule_session, run_rule_interaction};

fn src(text: &str) -> Vec<u8> {
    text.as_bytes().to_vec()
}

fn edit(position: usize, deleted_length: usize, inserted: &str) -> SourceEdit {
    SourceEdit { position, deleted_length, inserted_text: inserted.as_bytes().to_vec() }
}

#[test]
fn line_of_an_offset_counts_line_breaks_before_it() {
    let source = src("ab\ncd\nef");
    assert_eq!(line_of_offset(&source, 0), 0);
    assert_eq!(line_of_offset(&source, 2), 0);
    assert_eq!(line_of_offset(&source, 3), 1);
    assert_eq!(line_of_offset(&source, 6), 2);
    // past the end: the whole text's line breaks
    assert_eq!(line_of_offset(&source, 100), 2);
}

#[test]
fn a_rule_with_no_matches_yields_no_session() {
    assert!(rule_session(Vec::new()).is_none());
    let session = rule_session(vec![(0, 6)]).unwrap();
    assert_eq!(session.spans, vec![(0usize, 6usize)]);
}

#[test]
fn accepting_a_rule_session_writes_the_reconciled_content() {
    let source = src("foo(1); rest");
    let session = rule_session(vec![(0, 6)]).unwrap();
    let edits = vec![edit(0, 6, "bar(1)")];
    let outcome = run_rule_interaction(&source, &session, Some(&edits), 'y');
    match outcome {
        SessionOutcome::Write(content) => assert_eq!(content, src("bar(1); rest")),
        _ => panic!("accept must end in a write"),
    }
}

#[test]
fn a_rule_without_a_fixer_only_acknowledges() {
    let source = src("foo(1)");
    let session = rule_session(vec![(0, 6)]).unwrap();
    for response in ['y', 'n', 'a', 'e', 'q'] {
        let outcome = run_rule_interaction(&source, &session, None, response);
        assert!(matches!(outcome, SessionOutcome::Continue));
    }
}

#[test]
fn rejecting_a_rule_session_touches_nothing() {
    let source = src("foo(1)");
    let session = rule_session(vec![(0, 6)]).unwrap();
    let edits = vec![edit(0, 6, "bar(1)")];
    let outcome = run_rule_interaction(&source, &session, Some(&edits), 'n');
    assert!(matches!(outcome, SessionOutcome::Continue));
}

#[test]
fn quitting_a_rule_session_ends_the_run() {
    let source = src("foo(1)");
    let session = rule_session(vec![(0, 6)]).unwrap();
    let edits = vec![edit(0, 6, "bar(1)")];
    let outcome = run_rule_interaction(&source, &session, Some(&edits), 'q');
    assert!(matches!(outcome, SessionOutcome::Quit));
}

#[test]
fn a_rule_editor_decision_is_seeded_at_the_matchs_line() {
    let source = src("a;\nb;\nfoo(1)");
    let session = rule_session(vec![(6, 12)]).unwrap();
    let edits = vec![edit(6, 6, "bar(1)")];
    let outcome = run_rule_interaction(&source, &session, Some(&edits), 'e');
    assert!(matches!(outcome, SessionOutcome::OpenEditorAt(2)));
}

#[test]
fn overlapping_fixer_edits_fault_instead_of_writing() {
    let source = src("abcdef");
    let session = rule_session(vec![(0, 3)]).unwrap();
    let edits = vec![edit(0, 3, "x"), edit(2, 2, "y")];
    let outcome = run_rule_interaction(&source, &session, Some(&edits), 'y');
    assert!(matches!(outcome, SessionOutcome::FatalBadEdits));
}
