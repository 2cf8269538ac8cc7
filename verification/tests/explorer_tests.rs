use phrase_explorer::change::{Change, NULL_CHANGES_CONSTANT};
use phrase_explorer::change_type::{ChangeType, DeltaStatus};
use phrase_explorer::changes::{Changes, DiffDeltaInfo, PatchLine};
use phrase_explorer::commit::{Commit, Signature};
use phrase_explorer::delta_file_ref::{DeltaFileRef, DiffFileInfo};
use phrase_explorer::time::GitTime;

fn commit() -> Commit {
    let who = || Signature::new(b"Ann".to_vec(), b"a@x".to_vec(), GitTime { seconds: 0, offset_minutes: 0 });
    Commit::new("c0ffee".to_string(), b"msg".to_vec(), who(), who())
}

fn file(exists: bool, path: Option<&str>, blob_size: Option<usize>) -> DiffFileInfo {
    DiffFileInfo { exists, path: path.map(|p| p.to_string()), blob_size }
}

fn delta(status: DeltaStatus, old_file: DiffFileInfo, new_file: DiffFileInfo) -> DiffDeltaInfo {
    DiffDeltaInfo { status, old_file, new_file }
}

fn patch() -> Vec<PatchLine> {
    vec![
        PatchLine { origin: '+', content: b"new line\n".to_vec() },
        PatchLine { origin: '-', content: b"old line\n".to_vec() },
    ]
}

fn drain(mut changes: Changes) -> Vec<Change> {
    let mut out = Vec::new();
    while let Some(item) = changes.next() {
        out.push(item.expect("changes never fail"));
    }
    out
}

#[test]
fn change_type_from_status() {
    assert_eq!(ChangeType::from(DeltaStatus::Added), ChangeType::Added);
    assert_eq!(ChangeType::from(DeltaStatus::Copied), ChangeType::Added);
    assert_eq!(ChangeType::from(DeltaStatus::Modified), ChangeType::Modified);
    assert_eq!(ChangeType::from(DeltaStatus::Deleted), ChangeType::Deleted);
    assert_eq!(ChangeType::from(DeltaStatus::Renamed), ChangeType::Renamed);
    for s in [
        DeltaStatus::Unmodified,
        DeltaStatus::Ignored,
        DeltaStatus::Untracked,
        DeltaStatus::Typechange,
        DeltaStatus::Unreadable,
        DeltaStatus::Conflicted,
    ] {
        assert_eq!(ChangeType::from(s), ChangeType::Unmapped);
    }
}

#[test]
fn change_type_names_and_order() {
    assert_eq!(ChangeType::Added.to_display_string(), "Added");
    assert_eq!(ChangeType::Modified.to_display_string(), "Modified");
    assert_eq!(ChangeType::Deleted.to_display_string(), "Deleted");
    assert_eq!(ChangeType::Renamed.to_display_string(), "Renamed");
    assert_eq!(ChangeType::Unmapped.to_display_string(), "Unmapped");
    assert!(ChangeType::Added < ChangeType::Modified);
    assert!(ChangeType::Renamed < ChangeType::Unmapped);
}

#[test]
fn new_change_has_empty_contents_and_shows_null() {
    let c = Change::new(DeltaStatus::Copied, Some(3), None, None, Some("a.txt".to_string()));
    assert_eq!(c.line_contents().map(|s| s.as_str()), Some(""));
    assert_eq!(
        c.to_display_string(),
        format!("CHANGE TYPE: Added\n\nCHANGE CONTENTS:\n{}\n", NULL_CHANGES_CONSTANT)
    );
}

#[test]
fn append_line_contents_concatenates() {
    let mut c = Change::new(DeltaStatus::Modified, None, None, None, None);
    assert!(c.append_line_contents("+").is_ok());
    assert!(c.append_line_contents("abc\n").is_ok());
    assert_eq!(c.line_contents().unwrap(), "+abc\n");
    assert_eq!(c.to_display_string(), "CHANGE TYPE: Modified\n\nCHANGE CONTENTS:\n+abc\n\n");
}

#[test]
fn updates_keep_contents() {
    let mut c = Change::new(DeltaStatus::Deleted, Some(1), None, Some("x".to_string()), None);
    c.append_line_contents("-x").unwrap();
    c.update_old_file_path(None);
    c.update_new_file_path(Some("y".to_string()));
    c.update_old_file_size(Some(9));
    c.update_new_file_size(None);
    assert_eq!(c.line_contents().unwrap(), "-x");
    assert!(c.to_display_string().starts_with("CHANGE TYPE: Deleted"));
}

#[test]
fn delta_file_ref_needs_existing_file_path_and_blob() {
    assert!(DeltaFileRef::new(&file(false, Some("a"), Some(1))).is_none());
    assert!(DeltaFileRef::new(&file(true, None, Some(1))).is_none());
    assert!(DeltaFileRef::new(&file(true, Some("a"), None)).is_none());
    let f = DeltaFileRef::new(&file(true, Some("src/a.rs"), Some(42))).unwrap();
    assert_eq!(f.size(), 42);
    assert_eq!(f.get_path(), "src/a.rs");
}

#[test]
fn changes_added_modified_deleted() {
    let deltas = vec![
        delta(DeltaStatus::Added, file(false, None, None), file(true, Some("a"), Some(5))),
        delta(DeltaStatus::Modified, file(true, Some("b"), Some(7)), file(true, Some("b"), Some(8))),
        delta(DeltaStatus::Deleted, file(true, Some("c"), Some(2)), file(false, None, None)),
    ];
    let all = drain(Changes::from_diff(commit(), deltas, patch()));
    assert_eq!(all.len(), 3);
    let text = "+new line\n-old line\n";
    for c in &all {
        assert_eq!(c.line_contents().unwrap(), text);
    }
    assert!(all[0].to_display_string().starts_with("CHANGE TYPE: Added\n"));
    assert!(all[1].to_display_string().starts_with("CHANGE TYPE: Modified\n"));
    assert!(all[2].to_display_string().starts_with("CHANGE TYPE: Deleted\n"));
}

#[test]
fn changes_resized_rename_gives_modification_then_rename() {
    let deltas = vec![delta(
        DeltaStatus::Renamed,
        file(true, Some("old"), Some(10)),
        file(true, Some("new"), Some(12)),
    )];
    let all = drain(Changes::from_diff(commit(), deltas, patch()));
    assert_eq!(all.len(), 2);
    assert!(all[0].to_display_string().starts_with("CHANGE TYPE: Modified\n"));
    assert_eq!(all[0].line_contents().unwrap(), "+new line\n-old line\n");
    assert_eq!(
        all[1].to_display_string(),
        format!("CHANGE TYPE: Renamed\n\nCHANGE CONTENTS:\n{}\n", NULL_CHANGES_CONSTANT)
    );
}

#[test]
fn changes_same_size_rename_gives_rename_only() {
    let deltas = vec![delta(
        DeltaStatus::Renamed,
        file(true, Some("old"), Some(10)),
        file(true, Some("new"), Some(10)),
    )];
    let all = drain(Changes::from_diff(commit(), deltas, patch()));
    assert_eq!(all.len(), 1);
    assert_eq!(all[0].line_contents().unwrap(), "");
    assert!(all[0].to_display_string().starts_with("CHANGE TYPE: Renamed\n"));
}

#[test]
fn changes_skip_untracked_statuses_and_missing_sides() {
    let deltas = vec![
        delta(DeltaStatus::Unmodified, file(true, Some("a"), Some(1)), file(true, Some("a"), Some(1))),
        delta(DeltaStatus::Typechange, file(true, Some("a"), Some(1)), file(true, Some("a"), Some(1))),
        delta(DeltaStatus::Added, file(false, None, None), file(true, Some("a"), None)),
        delta(DeltaStatus::Modified, file(false, None, None), file(true, Some("a"), Some(1))),
        delta(DeltaStatus::Copied, file(true, Some("a"), Some(1)), file(true, Some("b"), Some(1))),
    ];
    let all = drain(Changes::from_diff(commit(), deltas, Vec::new()));
    assert_eq!(all.len(), 1);
    assert!(all[0].to_display_string().starts_with("CHANGE TYPE: Added\n"));
}

#[test]
fn changes_stay_exhausted() {
    let mut changes = Changes::from_diff(commit(), Vec::new(), patch());
    assert!(changes.next().is_none());
    assert!(changes.next().is_none());
}

#[test]
fn patch_text_is_decoded_lossily() {
    let deltas = vec![delta(DeltaStatus::Added, file(false, None, None), file(true, Some("a"), Some(1)))];
    let lines = vec![PatchLine { origin: '+', content: vec![b'a', 0xff, b'b'] }];
    let all = drain(Changes::from_diff(commit(), deltas, lines));
    assert_eq!(all[0].line_contents().unwrap(), "+a\u{FFFD}b");
}

#[test]
fn into_changes_hands_out_all_in_order() {
    let deltas = vec![
        delta(DeltaStatus::Deleted, file(true, Some("c"), Some(2)), file(false, None, None)),
        delta(DeltaStatus::Renamed, file(true, Some("o"), Some(1)), file(true, Some("n"), Some(2))),
    ];
    let mut changes = Changes::from_diff(commit(), deltas, patch());
    let first = changes.next().unwrap().unwrap();
    assert!(first.to_display_string().starts_with("CHANGE TYPE: Deleted\n"));
    let rest = changes.into_changes();
    assert_eq!(rest.len(), 2);
    assert!(rest[0].to_display_string().starts_with("CHANGE TYPE: Modified\n"));
    assert!(rest[1].to_display_string().starts_with("CHANGE TYPE: Renamed\n"));
}

#[test]
fn changes_keep_their_commit() {
    let mut changes = Changes::from_diff(commit(), Vec::new(), patch());
    assert_eq!(changes.commit().sha(), "c0ffee");
    assert!(changes.next().is_none());
    assert_eq!(changes.commit().sha(), "c0ffee");
}
