use astscan::edit::{SourceEdit, reconcile_checked, edits_are_ok};

fn edit(position: usize, deleted_length: usize, inserted: &str) -> SourceEdit {
    SourceEdit { position, deleted_length, inserted_text: inserted.as_bytes().to_vec() }
}

#[test]
fn empty_edit_set_is_identity() {
    let source = b"let a = 1;".to_vec();
    let out = reconcile_checked(&source, &Vec::new()).unwrap();
    assert_eq!(out, source);
    // applying it twice still returns the original unchanged
    let out2 = reconcile_checked(&out, &Vec::new()).unwrap();
    assert_eq!(out2, source);
}

#[test]
fn single_edit_splices_exactly() {
    // original[0..p] + t + original[p+d..]
    let source = b"foo(1); rest".to_vec();
    let edits = vec![edit(0, 6, "bar(1)")];
    let out = reconcile_checked(&source, &edits).unwrap();
    assert_eq!(out, b"bar(1); rest".to_vec());
}

#[test]
fn two_edits_use_original_offsets() {
    // both offsets reference the original source, not progressively
    // rewritten text, even though the first replacement is longer
    let source = b"foo(1); foo(2);".to_vec();
    let edits = vec![edit(0, 6, "longer(1)"), edit(8, 6, "bar(2)")];
    let out = reconcile_checked(&source, &edits).unwrap();
    assert_eq!(out, b"longer(1); bar(2);".to_vec());
}

#[test]
fn output_length_follows_the_length_law() {
    // len(out) = len(source) - sum deleted + sum inserted
    let source = b"abcdefghij".to_vec();
    let edits = vec![edit(1, 3, "XY"), edit(6, 2, "12345")];
    let out = reconcile_checked(&source, &edits).unwrap();
    assert_eq!(out.len(), source.len() - (3 + 2) + (2 + 5));
    assert_eq!(out, b"aXYef12345ij".to_vec());
}

#[test]
fn insertion_without_deletion() {
    let source = b"ab".to_vec();
    let edits = vec![edit(1, 0, "--")];
    let out = reconcile_checked(&source, &edits).unwrap();
    assert_eq!(out, b"a--b".to_vec());
}

#[test]
fn edit_at_the_very_end() {
    let source = b"abc".to_vec();
    let edits = vec![edit(3, 0, "!")];
    let out = reconcile_checked(&source, &edits).unwrap();
    assert_eq!(out, b"abc!".to_vec());
}

#[test]
fn overlapping_edits_are_refused() {
    let source = b"abcdef".to_vec();
    let edits = vec![edit(0, 3, "x"), edit(2, 2, "y")];
    assert!(!edits_are_ok(source.len(), &edits));
    assert!(reconcile_checked(&source, &edits).is_none());
}

#[test]
fn out_of_order_edits_are_refused() {
    let source = b"abcdef".to_vec();
    let edits = vec![edit(4, 1, "x"), edit(0, 1, "y")];
    assert!(reconcile_checked(&source, &edits).is_none());
}

#[test]
fn edit_past_the_end_is_refused() {
    let source = b"abc".to_vec();
    let edits = vec![edit(2, 5, "x")];
    assert!(reconcile_checked(&source, &edits).is_none());
}

#[test]
fn touching_edits_are_allowed() {
    // end of the first exactly at the start of the second
    let source = b"abcd".to_vec();
    let edits = vec![edit(0, 2, "X"), edit(2, 2, "Y")];
    let out = reconcile_checked(&source, &edits).unwrap();
    assert_eq!(out, b"XY".to_vec());
}
