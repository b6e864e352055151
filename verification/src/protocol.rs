//! What each command is, as a conversation with the storage engine.
//!
//! A command hands statements to the engine, one after the other, and what
//! it does next depends on what the engine answered. Each command is
//! therefore described by a relation between three things: the request, the
//! exchanges that pass between the command and the engine, and the outcome
//! that the command returns. The relation leaves the answers open and fixes
//! everything else: given the answers, it says which statement is handed
//! over next, when the conversation ends, and what is returned.
//!
//! The laws that follow the four relations say what holds of every
//! conversation: that what is checked is checked before anything is written,
//! that a command writes once at most, and that what a command returns is
//! what it wrote.

use vstd::prelude::*;
use crate::answers::{
    creation_verdict, deletion_verdict, entry_verdict, fetch_verdict, listing_verdict,
    member_verdict, update_verdict,
};
use crate::errors::{
    entry_missing_text, is_storage_text, lemma_storage_texts, member_missing_text,
    unknown_meal_type_text, Phase,
};
use crate::models::{
    created_entry, entry_of_row, merged_entry, CreateDietEntryRequestView, DietEntryFilterView,
    DietEntryView, EntryRowView, MealType, UpdateFields,
};
use crate::sql::{
    delete_statement_view, entry_by_id_query_view, entry_exists_query_view,
    insert_statement_view, lemma_listing_does_not_write, lemma_listing_is_ordered,
    lemma_queries_do_not_write, lemma_written_entry_reads_back, list_query_view,
    member_exists_query_view, row_values, update_statement_view, LIST_ORDER_SQL,
};
use crate::storage::{Answer, Exchange, ListingView};

verus! {

/// What a creation is: the conversation that it has with the engine, and
/// what it returns.
///
/// It first asks whether the family member exists. If the answer does not
/// admit the member, the conversation ends there, with the message that says
/// why. Otherwise the insert follows, and the creation returns what the
/// insert comes to.
pub open spec fn creation(
    request: CreateDietEntryRequestView,
    exchanges: Seq<Exchange>,
    outcome: Result<DietEntryView, Seq<char>>,
) -> bool {
    &&& 1 <= exchanges.len()
    &&& exchanges[0].statement == member_exists_query_view(request.member_id)
    &&& exchanges[0].answer matches Answer::Flag(held)
    &&& match member_verdict(request.member_id, held) {
        Err(message) => exchanges.len() == 1 && outcome == Err::<DietEntryView, Seq<char>>(
            message,
        ),
        Ok(_) => {
            &&& exchanges.len() == 2
            &&& exchanges[1].statement == insert_statement_view(request)
            &&& exchanges[1].answer matches Answer::Inserted(inserted)
            &&& outcome == creation_verdict(request, inserted)
        },
    }
}

/// What a listing is: one query, and the listing returns what the query
/// comes to.
pub open spec fn listing(
    filter: DietEntryFilterView,
    exchanges: Seq<Exchange>,
    outcome: Result<Seq<DietEntryView>, Seq<char>>,
) -> bool {
    &&& exchanges.len() == 1
    &&& exchanges[0].statement == list_query_view(filter)
    &&& exchanges[0].answer matches Answer::Entries(rows)
    &&& outcome == listing_verdict(rows)
}

/// The last step of an update: the statement that writes the merged entry,
/// and the update returns what that statement comes to.
pub open spec fn update_written(
    merged: DietEntryView,
    exchange: Exchange,
    outcome: Result<DietEntryView, Seq<char>>,
) -> bool {
    &&& exchange.statement == update_statement_view(merged)
    &&& exchange.answer matches Answer::Changed(changed)
    &&& outcome == update_verdict(merged, changed)
}

/// What an update is: the conversation that it has with the engine, and
/// what it returns.
///
/// It first reads the entry. If there is none, or the new meal type is no
/// known label, the conversation ends there. If a family member is given, it
/// then asks whether that member exists, and ends there if the answer does
/// not admit the member. Only then does it write the merged entry.
pub open spec fn update(
    fields: UpdateFields,
    exchanges: Seq<Exchange>,
    outcome: Result<DietEntryView, Seq<char>>,
) -> bool {
    &&& 1 <= exchanges.len()
    &&& exchanges[0].statement == entry_by_id_query_view(fields.id)
    &&& exchanges[0].answer matches Answer::Entry(fetched)
    &&& match fetch_verdict(fields.id, fetched) {
        Err(message) => exchanges.len() == 1 && outcome == Err::<DietEntryView, Seq<char>>(
            message,
        ),
        Ok(existing) => match fields.refusal() {
            Some(message) => exchanges.len() == 1 && outcome == Err::<DietEntryView, Seq<char>>(
                message,
            ),
            None => {
                let merged = merged_entry(existing, fields.request());
                match fields.member_id {
                    None => exchanges.len() == 2 && update_written(merged, exchanges[1], outcome),
                    Some(member_id) => {
                        &&& 2 <= exchanges.len()
                        &&& exchanges[1].statement == member_exists_query_view(member_id)
                        &&& exchanges[1].answer matches Answer::Flag(held)
                        &&& match member_verdict(member_id, held) {
                            Err(message) => exchanges.len() == 2 && outcome == Err::<
                                DietEntryView,
                                Seq<char>,
                            >(message),
                            Ok(_) => exchanges.len() == 3 && update_written(
                                merged,
                                exchanges[2],
                                outcome,
                            ),
                        }
                    },
                }
            },
        },
    }
}

/// What a deletion is: the conversation that it has with the engine, and
/// what it returns.
///
/// It first asks whether the entry exists. If the answer does not admit the
/// entry, the conversation ends there, with the message that says why.
/// Otherwise the delete follows, and the deletion returns what the delete
/// comes to.
pub open spec fn deletion(
    id: int,
    exchanges: Seq<Exchange>,
    outcome: Result<(), Seq<char>>,
) -> bool {
    &&& 1 <= exchanges.len()
    &&& exchanges[0].statement == entry_exists_query_view(id)
    &&& exchanges[0].answer matches Answer::Flag(held)
    &&& match entry_verdict(id, held) {
        Err(message) => exchanges.len() == 1 && outcome == Err::<(), Seq<char>>(message),
        Ok(_) => {
            &&& exchanges.len() == 2
            &&& exchanges[1].statement == delete_statement_view(id)
            &&& exchanges[1].answer matches Answer::Changed(changed)
            &&& outcome == deletion_verdict(changed)
        },
    }
}

/// A creation succeeds only for a family member that exists. If the engine
/// says that it holds no such member, the creation fails with the message
/// that the member does not exist, and nothing more is handed over: no row
/// is inserted. If the engine says that it holds the member, the insert is
/// handed over, and the creation succeeds exactly if the insert does.
pub proof fn lemma_creation_needs_the_member(
    request: CreateDietEntryRequestView,
    exchanges: Seq<Exchange>,
    outcome: Result<DietEntryView, Seq<char>>,
)
    requires
        creation(request, exchanges, outcome),
    ensures
        exchanges[0].answer == Answer::Flag(Ok(false)) ==> {
            &&& outcome == Err::<DietEntryView, Seq<char>>(member_missing_text(request.member_id))
            &&& exchanges.len() == 1
        },
        exchanges[0].answer == Answer::Flag(Ok(true)) ==> {
            &&& exchanges.len() == 2
            &&& exchanges[1].statement == insert_statement_view(request)
            &&& outcome is Ok <==> exchanges[1].answer matches Answer::Inserted(Ok(_))
        },
        outcome matches Ok(entry) ==> {
            &&& exchanges[0].answer == Answer::Flag(Ok(true))
            &&& exchanges[1].answer == Answer::Inserted(Ok(entry.id as i64))
            &&& entry == created_entry(request, entry.id)
        },
{
}

/// The messages that a creation can fail with, once the database is open:
/// the family member does not exist, or the engine failed while the member
/// was looked up or the row inserted.
pub proof fn lemma_creation_fails_with(
    request: CreateDietEntryRequestView,
    exchanges: Seq<Exchange>,
    message: Seq<char>,
)
    requires
        creation(request, exchanges, Err(message)),
    ensures
        ({
            ||| message == member_missing_text(request.member_id)
            ||| is_storage_text(Phase::ValidateMember, message)
            ||| is_storage_text(Phase::Insert, message)
        }),
{
    lemma_storage_texts();
}

/// A created entry is read back as it was returned. If a creation returns
/// an entry, then a row that holds the id of that entry, and in its other
/// columns the values that the insert bound, is read as that entry.
pub proof fn lemma_created_entry_reads_back(
    request: CreateDietEntryRequestView,
    exchanges: Seq<Exchange>,
    entry: DietEntryView,
    row: EntryRowView,
)
    requires
        creation(request, exchanges, Ok(entry)),
        row.id == entry.id,
        row_values(row) == exchanges[1].statement.bound,
    ensures
        entry == created_entry(request, entry.id),
        entry_of_row(row) == entry,
{
    lemma_written_entry_reads_back(entry, row);
}

/// A creation writes once at most, and last: the question that comes before
/// the insert only reads, and a creation that succeeds has inserted.
pub proof fn lemma_creation_writes_last(
    request: CreateDietEntryRequestView,
    exchanges: Seq<Exchange>,
    outcome: Result<DietEntryView, Seq<char>>,
)
    requires
        creation(request, exchanges, outcome),
    ensures
        forall|i: int|
            0 <= i < exchanges.len() - 1 ==> !(#[trigger] exchanges[i]).statement.is_write(),
        outcome is Ok ==> exchanges.last().statement.is_write(),
        exchanges.len() == 1 ==> !exchanges[0].statement.is_write(),
{
    lemma_queries_do_not_write(request.member_id);
}

/// A listing only reads, and asks for the most recent timestamp first: the
/// one statement that it hands over is no write, and its text ends with the
/// ordering.
pub proof fn lemma_listing_only_reads(
    filter: DietEntryFilterView,
    exchanges: Seq<Exchange>,
    outcome: Result<Seq<DietEntryView>, Seq<char>>,
)
    requires
        listing(filter, exchanges, outcome),
    ensures
        forall|i: int| 0 <= i < exchanges.len() ==> !(#[trigger] exchanges[i]).statement.is_write(),
        LIST_ORDER_SQL@.is_suffix_of(exchanges[0].statement.sql),
{
    lemma_listing_does_not_write(filter);
    lemma_listing_is_ordered(filter);
}

/// The messages that a listing can fail with, once the database is open: the
/// engine failed while the query was compiled, started or read.
pub proof fn lemma_listing_fails_with(
    filter: DietEntryFilterView,
    exchanges: Seq<Exchange>,
    message: Seq<char>,
)
    requires
        listing(filter, exchanges, Err(message)),
    ensures
        ({
            ||| is_storage_text(Phase::Prepare, message)
            ||| is_storage_text(Phase::Execute, message)
            ||| is_storage_text(Phase::Collect, message)
        }),
{
    lemma_storage_texts();
}

/// A listing that succeeds returns every row that the engine returned, in
/// the order of the engine, each read as an entry.
pub proof fn lemma_listing_returns_the_rows(
    filter: DietEntryFilterView,
    exchanges: Seq<Exchange>,
    entries: Seq<DietEntryView>,
)
    requires
        listing(filter, exchanges, Ok(entries)),
    ensures
        exchanges[0].answer matches Answer::Entries(ListingView::Rows(rows)) && {
            &&& entries.len() == rows.len()
            &&& forall|i: int|
                0 <= i < rows.len() ==> entries[i] == entry_of_row(#[trigger] rows[i])
        },
{
}

/// An update of an entry that does not exist fails and changes nothing. If
/// the engine returns no row for the id, the update fails with the message
/// that the entry was not found, and nothing more is handed over: the one
/// statement that was handed over only reads.
pub proof fn lemma_update_of_a_missing_entry(
    fields: UpdateFields,
    exchanges: Seq<Exchange>,
    outcome: Result<DietEntryView, Seq<char>>,
)
    requires
        update(fields, exchanges, outcome),
        exchanges[0].answer matches Answer::Entry(Err(failure)) && failure.no_rows,
    ensures
        outcome == Err::<DietEntryView, Seq<char>>(entry_missing_text(fields.id)),
        exchanges.len() == 1,
        !exchanges[0].statement.is_write(),
{
    lemma_queries_do_not_write(fields.id);
}

/// The messages that an update can fail with, once the database is open: the
/// entry was not found; the new meal type is no known label; the new family
/// member does not exist; or the engine failed while the entry was read, the
/// member looked up or the entry written.
pub proof fn lemma_update_fails_with(
    fields: UpdateFields,
    exchanges: Seq<Exchange>,
    message: Seq<char>,
)
    requires
        update(fields, exchanges, Err(message)),
    ensures
        ({
            ||| message == entry_missing_text(fields.id)
            ||| is_storage_text(Phase::QueryEntry, message)
            ||| (fields.meal_type matches Some(text) && MealType::from_label(text) is None
                && message == unknown_meal_type_text(text))
            ||| (fields.member_id matches Some(member_id) && message == member_missing_text(
                member_id,
            ))
            ||| (fields.member_id is Some && is_storage_text(Phase::ValidateMember, message))
            ||| is_storage_text(Phase::Update, message)
        }),
{
    lemma_storage_texts();
}

/// An update moves an entry only to a family member that exists. If a new
/// member is given and the engine says that it holds no such member, the
/// update fails with the message that the member does not exist, and no row
/// is written. If no member is given, the engine is not asked about any.
pub proof fn lemma_update_needs_the_member(
    fields: UpdateFields,
    exchanges: Seq<Exchange>,
    outcome: Result<DietEntryView, Seq<char>>,
)
    requires
        update(fields, exchanges, outcome),
        exchanges.len() >= 2,
    ensures
        fields.member_id matches Some(member_id) ==> {
            &&& exchanges[1].statement == member_exists_query_view(member_id)
            &&& exchanges[1].answer == Answer::Flag(Ok(false)) ==> {
                &&& outcome == Err::<DietEntryView, Seq<char>>(member_missing_text(member_id))
                &&& exchanges.len() == 2
            }
            &&& exchanges[1].answer == Answer::Flag(Ok(true)) ==> exchanges.len() == 3
        },
        fields.member_id is None ==> exchanges.len() == 2 && exchanges[1].statement.is_write(),
{
}

/// An update that succeeds returns the stored row with the given fields
/// replaced, and has written exactly that: the result is the row that the
/// engine returned, read as an entry and merged with the request, and the
/// last statement handed over writes the result over its row.
pub proof fn lemma_update_returns_what_it_wrote(
    fields: UpdateFields,
    exchanges: Seq<Exchange>,
    entry: DietEntryView,
)
    requires
        update(fields, exchanges, Ok(entry)),
    ensures
        exchanges[0].answer matches Answer::Entry(Ok(stored)) && entry == merged_entry(
            entry_of_row(stored),
            fields.request(),
        ),
        fields.refusal() is None,
        exchanges.last().statement == update_statement_view(entry),
        entry.id == fields.id,
{
}

/// An update writes once at most, and last: every statement that comes
/// before the write only reads, and an update that succeeds has written.
pub proof fn lemma_update_writes_last(
    fields: UpdateFields,
    exchanges: Seq<Exchange>,
    outcome: Result<DietEntryView, Seq<char>>,
)
    requires
        update(fields, exchanges, outcome),
    ensures
        forall|i: int|
            0 <= i < exchanges.len() - 1 ==> !(#[trigger] exchanges[i]).statement.is_write(),
        outcome is Ok ==> exchanges.last().statement.is_write(),
        exchanges.len() == 1 ==> !exchanges[0].statement.is_write(),
{
    lemma_queries_do_not_write(fields.id);
    if let Some(member_id) = fields.member_id {
        lemma_queries_do_not_write(member_id);
    }
}

/// A deletion succeeds only for an entry that exists. If the engine says
/// that it holds no such entry, the deletion fails with the message that the
/// entry was not found, and nothing more is handed over: no row is deleted.
/// If the engine says that it holds the entry, the delete is handed over,
/// and the deletion succeeds exactly if the delete does.
pub proof fn lemma_deletion_needs_the_entry(
    id: int,
    exchanges: Seq<Exchange>,
    outcome: Result<(), Seq<char>>,
)
    requires
        deletion(id, exchanges, outcome),
    ensures
        exchanges[0].answer == Answer::Flag(Ok(false)) ==> {
            &&& outcome == Err::<(), Seq<char>>(entry_missing_text(id))
            &&& exchanges.len() == 1
        },
        exchanges[0].answer == Answer::Flag(Ok(true)) ==> {
            &&& exchanges.len() == 2
            &&& exchanges[1].statement == delete_statement_view(id)
            &&& outcome is Ok <==> exchanges[1].answer matches Answer::Changed(Ok(_))
        },
        outcome is Ok ==> exchanges[0].answer == Answer::Flag(Ok(true)),
{
}

/// The messages that a deletion can fail with, once the database is open:
/// the entry was not found, or the engine failed while the entry was looked
/// up or the row deleted.
pub proof fn lemma_deletion_fails_with(id: int, exchanges: Seq<Exchange>, message: Seq<char>)
    requires
        deletion(id, exchanges, Err(message)),
    ensures
        ({
            ||| message == entry_missing_text(id)
            ||| is_storage_text(Phase::CheckEntry, message)
            ||| is_storage_text(Phase::Delete, message)
        }),
{
    lemma_storage_texts();
}

/// A deletion writes once at most, and last: the question that comes before
/// the delete only reads, and a deletion that succeeds has deleted.
pub proof fn lemma_deletion_writes_last(
    id: int,
    exchanges: Seq<Exchange>,
    outcome: Result<(), Seq<char>>,
)
    requires
        deletion(id, exchanges, outcome),
    ensures
        forall|i: int|
            0 <= i < exchanges.len() - 1 ==> !(#[trigger] exchanges[i]).statement.is_write(),
        outcome is Ok ==> exchanges.last().statement.is_write(),
        exchanges.len() == 1 ==> !exchanges[0].statement.is_write(),
{
    lemma_queries_do_not_write(id);
}

} // verus!
