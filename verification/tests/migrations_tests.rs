use diet_store::commands::{create_diet_entry, get_diet_entries};
use diet_store::migrations::{get_migrations, MigrationKind};
use diet_store::models::DbPath;
use rusqlite::Connection;

#[test]
fn there_are_two_migrations_oldest_first() {
    let migrations = get_migrations();
    assert_eq!(migrations.len(), 2);
    assert_eq!(migrations[0].version, 1);
    assert_eq!(migrations[0].description, "create_initial_tables");
    assert_eq!(migrations[0].kind, MigrationKind::Up);
    assert_eq!(migrations[1].version, 2);
    assert_eq!(migrations[1].description, "create_diet_entries_table");
    assert_eq!(migrations[1].kind, MigrationKind::Up);
}

#[test]
fn the_migrations_name_their_tables_and_indexes() {
    let migrations = get_migrations();
    assert!(migrations[0].sql.contains("CREATE TABLE IF NOT EXISTS family_members"));
    assert!(migrations[0].sql.contains("CREATE TABLE IF NOT EXISTS tracked_items"));
    assert!(migrations[0]
        .sql
        .contains("FOREIGN KEY (family_member_id) REFERENCES family_members(id) ON DELETE CASCADE"));
    assert!(!migrations[0].sql.contains("diet_entries"));
    assert!(migrations[1].sql.contains("CREATE TABLE IF NOT EXISTS diet_entries"));
    assert!(migrations[1]
        .sql
        .contains("FOREIGN KEY (member_id) REFERENCES family_members(id) ON DELETE CASCADE"));
    assert!(migrations[1].sql.contains("idx_diet_entries_member_id ON diet_entries(member_id)"));
    assert!(migrations[1].sql.contains("idx_diet_entries_timestamp ON diet_entries(timestamp)"));
    assert!(migrations[1]
        .sql
        .contains("idx_diet_entries_member_timestamp ON diet_entries(member_id, timestamp)"));
}

#[test]
fn the_migrations_build_a_schema_that_the_commands_work_on() {
    let uri = "file:the_migrations_build_a_schema?mode=memory&cache=shared".to_string();
    let keeper = Connection::open(&uri).unwrap();
    for migration in get_migrations() {
        keeper.execute_batch(migration.sql).unwrap();
    }
    let tables: i64 = keeper
        .query_row(
            "SELECT COUNT(*) FROM sqlite_master WHERE type = 'table' AND name IN ('family_members', 'tracked_items', 'diet_entries')",
            [],
            |row| row.get(0),
        )
        .unwrap();
    assert_eq!(tables, 3);
    let indexes: i64 = keeper
        .query_row(
            "SELECT COUNT(*) FROM sqlite_master WHERE type = 'index' AND name LIKE 'idx_diet_entries_%'",
            [],
            |row| row.get(0),
        )
        .unwrap();
    assert_eq!(indexes, 3);
    keeper.execute("INSERT INTO family_members (name, icon) VALUES ('Test User', 'x')", []).unwrap();

    let path = DbPath(uri);
    let created = create_diet_entry(
        &path,
        1,
        "2024-01-15T12:00:00Z".to_string(),
        "Lunch".to_string(),
        "Test meal".to_string(),
        None,
        None,
    )
    .unwrap();
    let listed = get_diet_entries(&path, None, None, None).unwrap();
    assert_eq!(listed, vec![created]);
}

#[test]
fn the_migrations_can_be_applied_twice() {
    let keeper = Connection::open_in_memory().unwrap();
    for _ in 0..2 {
        for migration in get_migrations() {
            keeper.execute_batch(migration.sql).unwrap();
        }
    }
}
