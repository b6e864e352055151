use diet_store::answers::{
    creation_concluded, deletion_concluded, entry_admitted, entry_found, listing_concluded,
    member_admitted, opened, update_concluded,
};
use diet_store::models::{CreateDietEntryRequest, DbPath, DietEntry, EntryRow, MealType};
use diet_store::storage::{Listing, Session, StorageFailure};

fn failure(message: &str) -> StorageFailure {
    StorageFailure { no_rows: false, message: message.to_string() }
}

fn no_rows() -> StorageFailure {
    StorageFailure { no_rows: true, message: "Query returned no rows".to_string() }
}

fn stored_row(id: i64, meal_type: &str) -> EntryRow {
    EntryRow {
        id,
        member_id: 1,
        timestamp: "2024-01-15T12:00:00Z".to_string(),
        meal_type: meal_type.to_string(),
        description: "Test meal".to_string(),
        calories: Some(500),
        notes: None,
    }
}

fn entry(id: i64, meal_type: MealType) -> DietEntry {
    DietEntry {
        id,
        member_id: 1,
        timestamp: "2024-01-15T12:00:00Z".to_string(),
        meal_type,
        description: "Test meal".to_string(),
        calories: Some(500),
        notes: None,
    }
}

#[test]
fn a_member_that_exists_is_admitted() {
    assert_eq!(member_admitted(1, Ok(true)), Ok(()));
}

#[test]
fn a_member_that_does_not_exist_is_refused() {
    assert_eq!(member_admitted(42, Ok(false)), Err("Member with id 42 does not exist".to_string()));
}

#[test]
fn a_failed_member_lookup_is_reported() {
    assert_eq!(
        member_admitted(1, Err(failure("no such table: family_members"))),
        Err("Failed to validate member_id: no such table: family_members".to_string())
    );
    assert_eq!(
        member_admitted(1, Err(no_rows())),
        Err("Failed to validate member_id: Query returned no rows".to_string())
    );
}

#[test]
fn an_entry_that_exists_is_admitted() {
    assert_eq!(entry_admitted(1, Ok(true)), Ok(()));
}

#[test]
fn an_entry_that_does_not_exist_is_refused() {
    assert_eq!(
        entry_admitted(99999, Ok(false)),
        Err("Diet entry with id 99999 not found".to_string())
    );
}

#[test]
fn a_failed_entry_lookup_is_reported() {
    assert_eq!(
        entry_admitted(1, Err(failure("database is locked"))),
        Err("Failed to check if entry exists: database is locked".to_string())
    );
}

#[test]
fn a_fetched_row_is_read_as_an_entry() {
    assert_eq!(entry_found(3, Ok(stored_row(3, "Lunch"))), Ok(entry(3, MealType::Lunch)));
}

#[test]
fn a_fetched_row_with_an_unknown_meal_type_is_read_as_other() {
    assert_eq!(entry_found(3, Ok(stored_row(3, "Brunch"))), Ok(entry(3, MealType::Other)));
}

#[test]
fn a_query_without_rows_means_not_found() {
    assert_eq!(
        entry_found(99999, Err(no_rows())),
        Err("Diet entry with id 99999 not found".to_string())
    );
}

#[test]
fn a_failed_fetch_is_reported() {
    assert_eq!(
        entry_found(3, Err(failure("no such table: diet_entries"))),
        Err("Failed to query diet entry: no such table: diet_entries".to_string())
    );
}

#[test]
fn a_creation_ends_with_the_entry_under_its_new_id() {
    let request = CreateDietEntryRequest {
        member_id: 1,
        timestamp: "2024-01-15T12:00:00Z".to_string(),
        meal_type: MealType::Lunch,
        description: "Test meal".to_string(),
        calories: Some(500),
        notes: None,
    };
    assert_eq!(creation_concluded(request, Ok(17)), Ok(entry(17, MealType::Lunch)));
}

#[test]
fn a_failed_insert_is_reported() {
    let request = CreateDietEntryRequest {
        member_id: 1,
        timestamp: "2024-01-15T12:00:00Z".to_string(),
        meal_type: MealType::Lunch,
        description: "Test meal".to_string(),
        calories: Some(500),
        notes: None,
    };
    assert_eq!(
        creation_concluded(request, Err(failure("FOREIGN KEY constraint failed"))),
        Err("Failed to insert diet entry: FOREIGN KEY constraint failed".to_string())
    );
}

#[test]
fn an_update_ends_with_the_merged_entry() {
    assert_eq!(update_concluded(entry(3, MealType::Snack), Ok(1)), Ok(entry(3, MealType::Snack)));
    assert_eq!(update_concluded(entry(3, MealType::Snack), Ok(0)), Ok(entry(3, MealType::Snack)));
}

#[test]
fn a_failed_update_is_reported() {
    assert_eq!(
        update_concluded(entry(3, MealType::Snack), Err(failure("disk I/O error"))),
        Err("Failed to update diet entry: disk I/O error".to_string())
    );
}

#[test]
fn a_deletion_ends_without_a_payload() {
    assert_eq!(deletion_concluded(Ok(1)), Ok(()));
    assert_eq!(deletion_concluded(Ok(0)), Ok(()));
}

#[test]
fn a_failed_delete_is_reported() {
    assert_eq!(
        deletion_concluded(Err(failure("database is locked"))),
        Err("Failed to delete diet entry: database is locked".to_string())
    );
}

#[test]
fn a_listing_ends_with_every_row_in_order() {
    let rows = vec![stored_row(2, "Lunch"), stored_row(1, "Breakfast"), stored_row(5, "Brunch")];
    assert_eq!(
        listing_concluded(Listing::Rows(rows)),
        Ok(vec![
            entry(2, MealType::Lunch),
            entry(1, MealType::Breakfast),
            entry(5, MealType::Other)
        ])
    );
}

#[test]
fn a_listing_of_no_rows_is_empty() {
    assert_eq!(listing_concluded(Listing::Rows(Vec::new())), Ok(Vec::new()));
}

#[test]
fn a_listing_that_could_not_be_compiled_is_reported() {
    assert_eq!(
        listing_concluded(Listing::Unprepared(failure("no such table: diet_entries"))),
        Err("Failed to prepare query: no such table: diet_entries".to_string())
    );
}

#[test]
fn a_listing_that_could_not_start_is_reported() {
    assert_eq!(
        listing_concluded(Listing::Unstarted(failure(
            "Wrong number of parameters passed to query. Got 1, needed 0"
        ))),
        Err("Failed to execute query: Wrong number of parameters passed to query. Got 1, needed 0"
            .to_string())
    );
}

#[test]
fn a_listing_that_could_not_read_a_row_is_reported() {
    assert_eq!(
        listing_concluded(Listing::Unread(failure(
            "Invalid column type Text at index: 1, name: member_id"
        ))),
        Err("Failed to collect results: Invalid column type Text at index: 1, name: member_id"
            .to_string())
    );
}

#[test]
fn a_database_that_could_not_be_opened_is_reported() {
    match opened(Err(failure("unable to open database file: /no/such/tracker.db"))) {
        Ok(_) => panic!("a failure to open was taken for a session"),
        Err(message) => assert_eq!(
            message,
            "Failed to open database: unable to open database file: /no/such/tracker.db"
        ),
    }
    match opened(Err(no_rows())) {
        Ok(_) => panic!("a failure to open was taken for a session"),
        Err(message) => assert_eq!(message, "Failed to open database: Query returned no rows"),
    }
}

#[test]
fn a_session_that_was_opened_is_handed_on() {
    let answer = Session::open(&DbPath(":memory:".to_string()));
    assert!(answer.is_ok());
    assert!(opened(answer).is_ok());
}

#[test]
fn an_open_failure_carries_what_the_engine_says() {
    let nowhere = DbPath("/no/such/directory/for/diet_store/tracker.db".to_string());
    let said = match Session::open(&nowhere) {
        Ok(_) => panic!("opened a database in a directory that is not there"),
        Err(failure) => failure.message,
    };
    match opened(Session::open(&nowhere)) {
        Ok(_) => panic!("opened a database in a directory that is not there"),
        Err(message) => assert_eq!(message, format!("Failed to open database: {}", said)),
    }
    let deleted = diet_store::commands::delete_diet_entry(&nowhere, 1);
    assert_eq!(deleted, Err(format!("Failed to open database: {}", said)));
}
