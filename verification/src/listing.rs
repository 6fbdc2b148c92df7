//! What to do with each entry while a directory is listed.
//!
//! Reading the directory is the caller's part. For each entry the caller
//! says how reading it went; `record_entry` keeps the entries that could be
//! read and says how the listing goes on.

use vstd::prelude::*;

verus! {

/// How reading one entry of a directory went.
pub enum EntryOutcome<E> {
    /// The entry and its metadata were read.
    Usable(E),
    /// The entry was gone when it was read: it was removed while the
    /// directory was being listed.
    NotFound,
    /// Reading the entry was not permitted.
    PermissionDenied,
    /// Reading the entry failed in another way.
    Failed,
}

/// How a listing goes on after an entry.
#[derive(Debug, Clone, Copy, PartialEq, Eq, Structural)]
pub enum ListingAction {
    /// Go on with the next entry.
    Continue,
    /// Report that the entry could not be read, then go on with the next.
    Report,
    /// Give the listing up: it fails as a whole.
    Abort,
}

/// The action that follows an outcome. An entry that has vanished is
/// passed over, one that may not be read is reported, and any other failure
/// ends the listing.
pub open spec fn action_after<E>(outcome: EntryOutcome<E>) -> ListingAction {
    match outcome {
        EntryOutcome::Usable(_) => ListingAction::Continue,
        EntryOutcome::NotFound => ListingAction::Continue,
        EntryOutcome::PermissionDenied => ListingAction::Report,
        EntryOutcome::Failed => ListingAction::Abort,
    }
}

/// The entries listed so far, after an outcome: a usable entry is added at
/// the end, and nothing else changes them.
pub open spec fn entries_after<E>(entries: Seq<E>, outcome: EntryOutcome<E>) -> Seq<E> {
    match outcome {
        EntryOutcome::Usable(entry) => entries.push(entry),
        _ => entries,
    }
}

/// Takes the outcome of reading one entry into the listing, and says how
/// the listing goes on.
pub fn record_entry<E>(entries: &mut Vec<E>, outcome: EntryOutcome<E>) -> (action: ListingAction)
    ensures
        final(entries)@ == entries_after(old(entries)@, outcome),
        action == action_after(outcome),
{
    match outcome {
        EntryOutcome::Usable(entry) => {
            entries.push(entry);
            ListingAction::Continue
        },
        EntryOutcome::NotFound => ListingAction::Continue,
        EntryOutcome::PermissionDenied => ListingAction::Report,
        EntryOutcome::Failed => ListingAction::Abort,
    }
}

} // verus!
