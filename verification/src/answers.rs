//! What the commands make of the storage engine's answers.
//!
//! The engine's answer to a statement is not known before the statement is
//! handed over, so each function here takes the answer as an argument and
//! says exactly what follows from it: which answer lets a command go on, and
//! which message a command fails with otherwise.

use vstd::prelude::*;
use crate::errors::{
    entry_missing, entry_missing_text, member_missing, member_missing_text, storage_error,
    storage_text, Phase,
};
use crate::models::{
    created_entry, entries_of_rows, entry_of_row, CreateDietEntryRequest,
    CreateDietEntryRequestView, DietEntry, DietEntryView, EntryRow, EntryRowView,
};
use crate::storage::{
    answer_view, Listing, ListingView, Session, StorageFailure, StorageFailureView,
};

verus! {

/// The mathematical value of what a command returns: the value of its
/// payload, or the text of its message.
pub open spec fn outcome_view<T: View>(result: Result<T, String>) -> Result<T::V, Seq<char>> {
    match result {
        Ok(value) => Ok(value@),
        Err(message) => Err(message@),
    }
}

/// The mathematical value of what a listing returns: the values of its
/// entries, in order, or the text of its message.
pub open spec fn listed_view(result: Result<Vec<DietEntry>, String>) -> Result<
    Seq<DietEntryView>,
    Seq<char>,
> {
    match result {
        Ok(entries) => Ok(Seq::new(entries@.len(), |i: int| entries@[i]@)),
        Err(message) => Err(message@),
    }
}

/// Whether a write may name `member_id` as its family member, given the
/// engine's answer to the question whether the parent table holds it.
///
/// The write goes on exactly if the answer is yes. If the answer is no, the
/// command fails with the message that the member does not exist; if the
/// question itself failed, with the engine's description of that.
pub open spec fn member_verdict(member_id: int, held: Result<bool, StorageFailureView>) -> Result<
    (),
    Seq<char>,
> {
    match held {
        Ok(true) => Ok(()),
        Ok(false) => Err(member_missing_text(member_id)),
        Err(failure) => Err(storage_text(Phase::ValidateMember, failure.message)),
    }
}

/// Whether entry `id` may be deleted, given the engine's answer to the
/// question whether the table holds it.
///
/// The deletion goes on exactly if the answer is yes. If the answer is no,
/// the command fails with the message that the entry was not found; if the
/// question itself failed, with the engine's description of that.
pub open spec fn entry_verdict(id: int, held: Result<bool, StorageFailureView>) -> Result<
    (),
    Seq<char>,
> {
    match held {
        Ok(true) => Ok(()),
        Ok(false) => Err(entry_missing_text(id)),
        Err(failure) => Err(storage_text(Phase::CheckEntry, failure.message)),
    }
}

/// The entry that an update starts from, given the engine's answer to the
/// query for row `id`.
///
/// A row that came back is read as an entry, its meal type leniently. If the
/// query returned no row, the command fails with the message that the entry
/// was not found; if it failed in any other way, with the engine's
/// description of that.
pub open spec fn fetch_verdict(
    id: int,
    fetched: Result<EntryRowView, StorageFailureView>,
) -> Result<DietEntryView, Seq<char>> {
    match fetched {
        Ok(row) => Ok(entry_of_row(row)),
        Err(failure) => if failure.no_rows {
            Err(entry_missing_text(id))
        } else {
            Err(storage_text(Phase::QueryEntry, failure.message))
        },
    }
}

/// What a creation ends with, given the engine's answer to the insert: the
/// id that the table gave the new row, or the failure.
///
/// With an id, the result is the entry that was asked for under that id,
/// every field as the request holds it. With a failure, the command fails
/// with the engine's description of it.
pub open spec fn creation_verdict(
    request: CreateDietEntryRequestView,
    inserted: Result<i64, StorageFailureView>,
) -> Result<DietEntryView, Seq<char>> {
    match inserted {
        Ok(id) => Ok(created_entry(request, id as int)),
        Err(failure) => Err(storage_text(Phase::Insert, failure.message)),
    }
}

/// What an update ends with, given the engine's answer to the statement that
/// wrote the merged entry.
///
/// If the statement ran, the result is the merged entry, whatever number of
/// rows the engine reports as changed. If it failed, the command fails with
/// the engine's description of that.
pub open spec fn update_verdict(
    merged: DietEntryView,
    changed: Result<usize, StorageFailureView>,
) -> Result<DietEntryView, Seq<char>> {
    match changed {
        Ok(_) => Ok(merged),
        Err(failure) => Err(storage_text(Phase::Update, failure.message)),
    }
}

/// What a deletion ends with, given the engine's answer to the delete
/// statement.
///
/// If the statement ran, the command succeeds, whatever number of rows the
/// engine reports as changed. If it failed, the command fails with the
/// engine's description of that.
pub open spec fn deletion_verdict(changed: Result<usize, StorageFailureView>) -> Result<
    (),
    Seq<char>,
> {
    match changed {
        Ok(_) => Ok(()),
        Err(failure) => Err(storage_text(Phase::Delete, failure.message)),
    }
}

/// What a listing ends with, given the engine's answer to the query.
///
/// If all rows were read, the result is those rows as entries, in the order
/// in which the engine returned them and none left out, each meal type read
/// leniently. Otherwise the command fails with the engine's description,
/// under the phase that failed.
pub open spec fn listing_verdict(listing: ListingView) -> Result<Seq<DietEntryView>, Seq<char>> {
    match listing {
        ListingView::Unprepared(failure) => Err(storage_text(Phase::Prepare, failure.message)),
        ListingView::Unstarted(failure) => Err(storage_text(Phase::Execute, failure.message)),
        ListingView::Unread(failure) => Err(storage_text(Phase::Collect, failure.message)),
        ListingView::Rows(rows) => Ok(Seq::new(rows.len(), |i: int| entry_of_row(rows[i]))),
    }
}

/// Decides whether a command may go on, from the engine's answer to the
/// opening of the database.
///
/// A session that was opened is handed on as it is. If the database could
/// not be opened, the command fails with the engine's description of that,
/// behind the prefix of the opening.
pub fn opened(answer: Result<Session, StorageFailure>) -> (connected: Result<Session, String>)
    ensures
        match answer {
            Ok(session) => connected matches Ok(same) && same == session,
            Err(failure) => connected matches Err(message) && message@ == storage_text(
                Phase::Open,
                failure.message@,
            ),
        },
{
    match answer {
        Ok(session) => Ok(session),
        Err(failure) => Err(storage_error(Phase::Open, failure.message.as_str())),
    }
}

/// Decides whether a write may name `member_id` as its family member.
pub fn member_admitted(member_id: i64, held: Result<bool, StorageFailure>) -> (admitted: Result<
    (),
    String,
>)
    ensures
        outcome_view(admitted) == member_verdict(member_id as int, answer_view(held)),
{
    match held {
        Ok(true) => Ok(()),
        Ok(false) => Err(member_missing(member_id)),
        Err(failure) => Err(storage_error(Phase::ValidateMember, failure.message.as_str())),
    }
}

/// Decides whether entry `id` may be deleted.
pub fn entry_admitted(id: i64, held: Result<bool, StorageFailure>) -> (admitted: Result<
    (),
    String,
>)
    ensures
        outcome_view(admitted) == entry_verdict(id as int, answer_view(held)),
{
    match held {
        Ok(true) => Ok(()),
        Ok(false) => Err(entry_missing(id)),
        Err(failure) => Err(storage_error(Phase::CheckEntry, failure.message.as_str())),
    }
}

/// Reads the entry that an update starts from.
pub fn entry_found(id: i64, fetched: Result<EntryRow, StorageFailure>) -> (found: Result<
    DietEntry,
    String,
>)
    ensures
        outcome_view(found) == fetch_verdict(id as int, answer_view(fetched)),
{
    match fetched {
        Ok(row) => Ok(DietEntry::from_row(row)),
        Err(failure) => if failure.no_rows {
            Err(entry_missing(id))
        } else {
            Err(storage_error(Phase::QueryEntry, failure.message.as_str()))
        },
    }
}

/// Concludes a creation.
pub fn creation_concluded(
    request: CreateDietEntryRequest,
    inserted: Result<i64, StorageFailure>,
) -> (created: Result<DietEntry, String>)
    ensures
        outcome_view(created) == creation_verdict(request@, answer_view(inserted)),
{
    match inserted {
        Ok(id) => Ok(request.into_entry(id)),
        Err(failure) => Err(storage_error(Phase::Insert, failure.message.as_str())),
    }
}

/// Concludes an update.
pub fn update_concluded(merged: DietEntry, changed: Result<usize, StorageFailure>) -> (updated:
    Result<DietEntry, String>)
    ensures
        outcome_view(updated) == update_verdict(merged@, answer_view(changed)),
{
    match changed {
        Ok(_) => Ok(merged),
        Err(failure) => Err(storage_error(Phase::Update, failure.message.as_str())),
    }
}

/// Concludes a deletion.
pub fn deletion_concluded(changed: Result<usize, StorageFailure>) -> (deleted: Result<(), String>)
    ensures
        outcome_view(deleted) == deletion_verdict(answer_view(changed)),
{
    match changed {
        Ok(_) => Ok(()),
        Err(failure) => Err(storage_error(Phase::Delete, failure.message.as_str())),
    }
}

/// Concludes a listing.
pub fn listing_concluded(listing: Listing) -> (listed: Result<Vec<DietEntry>, String>)
    ensures
        listed_view(listed) == listing_verdict(listing@),
{
    match listing {
        Listing::Unprepared(failure) => Err(
            storage_error(Phase::Prepare, failure.message.as_str()),
        ),
        Listing::Unstarted(failure) => Err(storage_error(Phase::Execute, failure.message.as_str())),
        Listing::Unread(failure) => Err(storage_error(Phase::Collect, failure.message.as_str())),
        Listing::Rows(rows) => {
            let ghost stored = Seq::new(rows@.len(), |i: int| rows@[i]@);
            let entries = entries_of_rows(rows);
            assert(Seq::new(entries@.len(), |i: int| entries@[i]@) =~= Seq::new(
                stored.len(),
                |i: int| entry_of_row(stored[i]),
            ));
            Ok(entries)
        },
    }
}

} // verus!
