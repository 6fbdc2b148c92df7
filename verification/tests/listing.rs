use pw_pathux::listing::{record_entry, EntryOutcome, ListingAction};

#[test]
fn usable_entries_are_kept_in_order() {
    let mut entries: Vec<&str> = Vec::new();
    assert_eq!(
        record_entry(&mut entries, EntryOutcome::Usable("a")),
        ListingAction::Continue
    );
    assert_eq!(
        record_entry(&mut entries, EntryOutcome::Usable("b")),
        ListingAction::Continue
    );
    assert_eq!(entries, vec!["a", "b"]);
}

#[test]
fn a_vanished_entry_is_passed_over() {
    let mut entries = vec![1, 2];
    assert_eq!(
        record_entry(&mut entries, EntryOutcome::NotFound),
        ListingAction::Continue
    );
    assert_eq!(entries, vec![1, 2]);
}

#[test]
fn a_forbidden_entry_is_reported() {
    let mut entries = vec![1, 2];
    assert_eq!(
        record_entry(&mut entries, EntryOutcome::PermissionDenied),
        ListingAction::Report
    );
    assert_eq!(entries, vec![1, 2]);
}

#[test]
fn another_failure_ends_the_listing() {
    let mut entries = vec![1, 2];
    assert_eq!(
        record_entry(&mut entries, EntryOutcome::Failed),
        ListingAction::Abort
    );
    assert_eq!(entries, vec![1, 2]);
}

#[test]
fn a_listing_with_faults_keeps_what_could_be_read() {
    let mut entries: Vec<u32> = Vec::new();
    let outcomes = vec![
        EntryOutcome::Usable(1),
        EntryOutcome::NotFound,
        EntryOutcome::Usable(2),
        EntryOutcome::PermissionDenied,
        EntryOutcome::Usable(3),
    ];
    let mut reports = 0;
    for outcome in outcomes {
        match record_entry(&mut entries, outcome) {
            ListingAction::Continue => {}
            ListingAction::Report => reports += 1,
            ListingAction::Abort => panic!("no outcome here ends the listing"),
        }
    }
    assert_eq!(entries, vec![1, 2, 3]);
    assert_eq!(reports, 1);
}
