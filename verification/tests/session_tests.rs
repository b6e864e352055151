use diet_store::commands::{create_entry, delete_entry, list_entries, update_entry};
use diet_store::migrations::get_migrations;
use diet_store::models::{CreateDietEntryRequest, DbPath, DietEntryFilter, MealType};
use diet_store::storage::Session;
use rusqlite::Connection;

fn session_store(name: &str) -> (Connection, Session) {
    let uri = format!("file:{}?mode=memory&cache=shared", name);
    let keeper = Connection::open(&uri).unwrap();
    for migration in get_migrations() {
        keeper.execute_batch(migration.sql).unwrap();
    }
    keeper.execute("INSERT INTO family_members (name, icon) VALUES ('First', 'a')", []).unwrap();
    let session = Session::open(&DbPath(uri)).unwrap();
    (keeper, session)
}

fn lunch(member_id: i64, timestamp: &str, description: &str) -> CreateDietEntryRequest {
    CreateDietEntryRequest {
        member_id,
        timestamp: timestamp.to_string(),
        meal_type: MealType::Lunch,
        description: description.to_string(),
        calories: Some(500),
        notes: None,
    }
}

fn everything() -> DietEntryFilter {
    DietEntryFilter { member_id: None, start_date: None, end_date: None }
}

#[test]
fn a_session_cannot_be_opened_where_there_is_no_directory() {
    let nowhere = DbPath("/no/such/directory/for/diet_store/tracker.db".to_string());
    let failure = match Session::open(&nowhere) {
        Ok(_) => panic!("opened a database in a directory that is not there"),
        Err(failure) => failure,
    };
    assert!(!failure.no_rows);
    assert!(failure.message.starts_with("unable to open database file"));
}

#[test]
fn one_session_serves_several_commands() {
    let (_keeper, mut session) = session_store("one_session_serves_several_commands");
    let first = create_entry(&mut session, lunch(1, "2024-01-15T12:00:00Z", "first")).unwrap();
    let second = create_entry(&mut session, lunch(1, "2024-01-16T12:00:00Z", "second")).unwrap();
    assert_ne!(first.id, second.id);
    let listed = list_entries(&mut session, &everything()).unwrap();
    assert_eq!(listed, vec![second.clone(), first.clone()]);
    let updated = update_entry(
        &mut session,
        first.id,
        None,
        None,
        Some("Dinner".to_string()),
        None,
        None,
        Some("late".to_string()),
    )
    .unwrap();
    assert_eq!(updated.meal_type, MealType::Dinner);
    assert_eq!(updated.notes, Some("late".to_string()));
    assert_eq!(updated.calories, Some(500));
    assert_eq!(delete_entry(&mut session, second.id), Ok(()));
    assert_eq!(list_entries(&mut session, &everything()).unwrap(), vec![updated]);
}

#[test]
fn a_creation_for_a_missing_member_inserts_nothing() {
    let (keeper, mut session) = session_store("a_creation_for_a_missing_member");
    let created = create_entry(&mut session, lunch(7, "2024-01-15T12:00:00Z", "nobody's"));
    assert_eq!(created, Err("Member with id 7 does not exist".to_string()));
    assert_eq!(keeper.total_changes(), 1);
    let count: i64 =
        keeper.query_row("SELECT COUNT(*) FROM diet_entries", [], |row| row.get(0)).unwrap();
    assert_eq!(count, 0);
}

#[test]
fn an_update_of_a_missing_entry_writes_nothing() {
    let (keeper, mut session) = session_store("an_update_of_a_missing_entry_writes_nothing");
    let created = create_entry(&mut session, lunch(1, "2024-01-15T12:00:00Z", "only")).unwrap();
    let updated = update_entry(
        &mut session,
        created.id + 1,
        Some(7),
        None,
        Some("Brunch".to_string()),
        Some("changed".to_string()),
        None,
        None,
    );
    assert_eq!(updated, Err(format!("Diet entry with id {} not found", created.id + 1)));
    assert_eq!(list_entries(&mut session, &everything()).unwrap(), vec![created]);
    let stored: String = keeper
        .query_row("SELECT description FROM diet_entries", [], |row| row.get(0))
        .unwrap();
    assert_eq!(stored, "only");
}

#[test]
fn a_deletion_of_a_missing_entry_deletes_nothing() {
    let (_keeper, mut session) = session_store("a_deletion_of_a_missing_entry_deletes_nothing");
    let created = create_entry(&mut session, lunch(1, "2024-01-15T12:00:00Z", "only")).unwrap();
    assert_eq!(
        delete_entry(&mut session, created.id + 1),
        Err(format!("Diet entry with id {} not found", created.id + 1))
    );
    assert_eq!(list_entries(&mut session, &everything()).unwrap(), vec![created]);
}

#[test]
fn a_listing_over_a_session_applies_the_filter() {
    let (keeper, mut session) = session_store("a_listing_over_a_session_applies_the_filter");
    keeper.execute("INSERT INTO family_members (name, icon) VALUES ('Second', 'b')", []).unwrap();
    let first = create_entry(&mut session, lunch(1, "2024-01-15T12:00:00Z", "first")).unwrap();
    let second = create_entry(&mut session, lunch(2, "2024-01-16T12:00:00Z", "second")).unwrap();
    let by_member =
        DietEntryFilter { member_id: Some(2), start_date: None, end_date: None };
    assert_eq!(list_entries(&mut session, &by_member).unwrap(), vec![second]);
    let by_date = DietEntryFilter {
        member_id: None,
        start_date: None,
        end_date: Some("2024-01-15T23:59:59Z".to_string()),
    };
    assert_eq!(list_entries(&mut session, &by_date).unwrap(), vec![first]);
}
