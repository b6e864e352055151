//! The four commands of the store: create, list, update and delete.
//!
//! A command is a short conversation with the storage engine. It checks what
//! it has to check, one question at a time, and only when every check has
//! passed does it hand over the one statement that writes. What the engine
//! answers is not known in advance, so the contract of each command says
//! that the command holds the conversation that [`crate::protocol`] lays
//! down for it, whatever the engine answers.
//!
//! Each command comes twice: once over a session that is already open, and
//! once by the path of the database, which opens a session of its own.

use vstd::prelude::*;
use crate::answers::{
    creation_concluded, deletion_concluded, entry_admitted, entry_found, listed_view,
    listing_concluded, member_admitted, opened, outcome_view, update_concluded,
};
use crate::errors::{is_storage_text, lemma_storage_texts, unknown_meal_type_text, Phase};
use crate::models::{
    create_asked, filter_asked, update_fields, CreateDietEntryRequest, DbPath, DietEntry,
    DietEntryFilter, DietEntryView, MealType, UpdateDietEntryRequest,
};
use crate::protocol::{creation, deletion, listing, update};
use crate::sql::{
    delete_statement, entry_by_id_query, entry_exists_query, insert_statement, list_query,
    member_exists_query, update_statement,
};
use crate::storage::{Exchange, Session};

verus! {

/// What has passed over a connection since an earlier moment.
pub open spec fn since(before: Seq<Exchange>, after: Seq<Exchange>) -> Seq<Exchange> {
    after.skip(before.len() as int)
}

/// Creates the entry that `request` describes, over an open connection.
pub fn create_entry(session: &mut Session, request: CreateDietEntryRequest) -> (created: Result<
    DietEntry,
    String,
>)
    ensures
        old(session).exchanges().is_prefix_of(final(session).exchanges()),
        creation(
            request@,
            since(old(session).exchanges(), final(session).exchanges()),
            outcome_view(created),
        ),
{
    let ghost before = session.exchanges();
    let check = member_exists_query(request.member_id);
    let held = session.read_flag(&check);
    match member_admitted(request.member_id, held) {
        Ok(()) => {},
        Err(message) => {
            assert(since(before, session.exchanges()) =~= seq![session.exchanges().last()]);
            return Err(message);
        },
    }
    let ghost asked = session.exchanges().last();
    let insert = insert_statement(&request);
    let inserted = session.insert(&insert);
    assert(since(before, session.exchanges()) =~= seq![asked, session.exchanges().last()]);
    creation_concluded(request, inserted)
}

/// Lists the entries that pass `filter`, over an open connection.
pub fn list_entries(session: &mut Session, filter: &DietEntryFilter) -> (listed: Result<
    Vec<DietEntry>,
    String,
>)
    ensures
        old(session).exchanges().is_prefix_of(final(session).exchanges()),
        listing(
            filter@,
            since(old(session).exchanges(), final(session).exchanges()),
            listed_view(listed),
        ),
{
    let ghost before = session.exchanges();
    let query = list_query(filter);
    let rows = session.read_entries(&query);
    assert(since(before, session.exchanges()) =~= seq![session.exchanges().last()]);
    listing_concluded(rows)
}

/// Changes entry `id` as the given fields ask, over an open connection.
pub fn update_entry(
    session: &mut Session,
    id: i64,
    member_id: Option<i64>,
    timestamp: Option<String>,
    meal_type: Option<String>,
    description: Option<String>,
    calories: Option<i64>,
    notes: Option<String>,
) -> (updated: Result<DietEntry, String>)
    ensures
        old(session).exchanges().is_prefix_of(final(session).exchanges()),
        update(
            update_fields(id, member_id, timestamp, meal_type, description, calories, notes),
            since(old(session).exchanges(), final(session).exchanges()),
            outcome_view(updated),
        ),
{
    let ghost before = session.exchanges();
    let fetch = entry_by_id_query(id);
    let fetched = session.read_entry(&fetch);
    let ghost read = session.exchanges().last();
    assert(since(before, session.exchanges()) =~= seq![read]);
    let existing = match entry_found(id, fetched) {
        Ok(existing) => existing,
        Err(message) => {
            return Err(message);
        },
    };
    let request = match UpdateDietEntryRequest::validated(
        id,
        member_id,
        timestamp,
        meal_type,
        description,
        calories,
        notes,
    ) {
        Ok(request) => request,
        Err(message) => {
            return Err(message);
        },
    };
    let member_changes = request.member_id.is_some();
    let merged = request.apply(existing);
    if member_changes {
        let check = member_exists_query(merged.member_id);
        let held = session.read_flag(&check);
        assert(since(before, session.exchanges()) =~= seq![read, session.exchanges().last()]);
        match member_admitted(merged.member_id, held) {
            Ok(()) => {},
            Err(message) => {
                return Err(message);
            },
        }
    }
    let ghost checked = since(before, session.exchanges());
    let write = update_statement(&merged);
    let changed = session.change(&write);
    assert(since(before, session.exchanges()) =~= checked.push(session.exchanges().last()));
    update_concluded(merged, changed)
}

/// Deletes entry `id`, over an open connection.
pub fn delete_entry(session: &mut Session, id: i64) -> (deleted: Result<(), String>)
    ensures
        old(session).exchanges().is_prefix_of(final(session).exchanges()),
        deletion(
            id as int,
            since(old(session).exchanges(), final(session).exchanges()),
            outcome_view(deleted),
        ),
{
    let ghost before = session.exchanges();
    let check = entry_exists_query(id);
    let held = session.read_flag(&check);
    match entry_admitted(id, held) {
        Ok(()) => {},
        Err(message) => {
            assert(since(before, session.exchanges()) =~= seq![session.exchanges().last()]);
            return Err(message);
        },
    }
    let ghost asked = session.exchanges().last();
    let delete = delete_statement(id);
    let changed = session.change(&delete);
    assert(since(before, session.exchanges()) =~= seq![asked, session.exchanges().last()]);
    deletion_concluded(changed)
}

/// Opens the database, or fails with the engine's description of why it
/// could not.
fn connect(db_path: &DbPath) -> (connected: Result<Session, String>)
    ensures
        match connected {
            Ok(session) => session.exchanges() == Seq::<Exchange>::empty(),
            Err(message) => is_storage_text(Phase::Open, message@),
        },
{
    let connected = opened(Session::open(db_path));
    proof {
        lemma_storage_texts();
    }
    connected
}

/// Creates an entry for family member `member_id`.
///
/// The meal type must be one of the known labels, in exactly their spelling,
/// and the member must exist; the meal type is checked first, before the
/// database is opened. Then the row is inserted, in one statement, and the
/// table assigns its id. On success the result holds that id and every field
/// as it was given.
pub fn create_diet_entry(
    db_path: &DbPath,
    member_id: i64,
    timestamp: String,
    meal_type: String,
    description: String,
    calories: Option<i64>,
    notes: Option<String>,
) -> (created: Result<DietEntry, String>)
    ensures
        match MealType::from_label(meal_type@) {
            None => outcome_view(created) == Err::<DietEntryView, Seq<char>>(
                unknown_meal_type_text(meal_type@),
            ),
            Some(known) => {
                ||| created matches Err(message) && is_storage_text(Phase::Open, message@)
                ||| exists|exchanges: Seq<Exchange>| #[trigger]
                    creation(
                        create_asked(member_id, timestamp, known, description, calories, notes),
                        exchanges,
                        outcome_view(created),
                    )
            },
        },
{
    let request = match CreateDietEntryRequest::validated(
        member_id,
        timestamp,
        meal_type.as_str(),
        description,
        calories,
        notes,
    ) {
        Ok(request) => request,
        Err(message) => {
            return Err(message);
        },
    };
    let mut session = match connect(db_path) {
        Ok(session) => session,
        Err(message) => {
            return Err(message);
        },
    };
    let ghost asked = request@;
    let created = create_entry(&mut session, request);
    assert(creation(asked, since(Seq::empty(), session.exchanges()), outcome_view(created)));
    created
}

/// Lists the entries that pass every bound that is given: the family member,
/// the earliest timestamp and the latest timestamp, both included. An absent
/// bound asks for nothing. The engine is asked for the most recent timestamp
/// first.
///
/// The rows are returned as the engine hands them back, in its order and
/// none left out, each read as an entry. A stored meal type that is no known
/// label never fails the listing: such a row is an entry of type `Other`.
pub fn get_diet_entries(
    db_path: &DbPath,
    member_id: Option<i64>,
    start_date: Option<String>,
    end_date: Option<String>,
) -> (listed: Result<Vec<DietEntry>, String>)
    ensures
        ({
            ||| listed matches Err(message) && is_storage_text(Phase::Open, message@)
            ||| exists|exchanges: Seq<Exchange>| #[trigger]
                listing(
                    filter_asked(member_id, start_date, end_date),
                    exchanges,
                    listed_view(listed),
                )
        }),
{
    let mut session = match connect(db_path) {
        Ok(session) => session,
        Err(message) => {
            return Err(message);
        },
    };
    let filter = DietEntryFilter { member_id, start_date, end_date };
    let listed = list_entries(&mut session, &filter);
    assert(listing(filter@, since(Seq::empty(), session.exchanges()), listed_view(listed)));
    listed
}

/// Changes entry `id`. Every field that is given replaces the stored one;
/// every field that is absent keeps its stored value, so an optional field
/// cannot be cleared.
///
/// The entry is read first, and the command fails if there is none. Then a
/// new meal type, if given, must be a known label, and a new family member,
/// if given, must exist. Only then is the row written, in one statement.
/// On success the result is the stored row, read as an entry, with the given
/// fields replaced.
pub fn update_diet_entry(
    db_path: &DbPath,
    id: i64,
    member_id: Option<i64>,
    timestamp: Option<String>,
    meal_type: Option<String>,
    description: Option<String>,
    calories: Option<i64>,
    notes: Option<String>,
) -> (updated: Result<DietEntry, String>)
    ensures
        ({
            ||| updated matches Err(message) && is_storage_text(Phase::Open, message@)
            ||| exists|exchanges: Seq<Exchange>| #[trigger]
                update(
                    update_fields(
                        id,
                        member_id,
                        timestamp,
                        meal_type,
                        description,
                        calories,
                        notes,
                    ),
                    exchanges,
                    outcome_view(updated),
                )
        }),
{
    let mut session = match connect(db_path) {
        Ok(session) => session,
        Err(message) => {
            return Err(message);
        },
    };
    let ghost fields = update_fields(
        id,
        member_id,
        timestamp,
        meal_type,
        description,
        calories,
        notes,
    );
    let updated = update_entry(
        &mut session,
        id,
        member_id,
        timestamp,
        meal_type,
        description,
        calories,
        notes,
    );
    assert(update(fields, since(Seq::empty(), session.exchanges()), outcome_view(updated)));
    updated
}

/// Deletes entry `id`.
///
/// The entry is looked up first, and the command fails if there is none:
/// deleting what is not there is an error, not a success. Only then is the
/// row deleted, in one statement.
pub fn delete_diet_entry(db_path: &DbPath, id: i64) -> (deleted: Result<(), String>)
    ensures
        ({
            ||| deleted matches Err(message) && is_storage_text(Phase::Open, message@)
            ||| exists|exchanges: Seq<Exchange>| #[trigger]
                deletion(id as int, exchanges, outcome_view(deleted))
        }),
{
    let mut session = match connect(db_path) {
        Ok(session) => session,
        Err(message) => {
            return Err(message);
        },
    };
    let deleted = delete_entry(&mut session, id);
    assert(deletion(id as int, since(Seq::empty(), session.exchanges()), outcome_view(deleted)));
    deleted
}

} // verus!
