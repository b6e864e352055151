//! The schema of the database, as the migrations that build it.
//!
//! The host applies the migrations once, in the order of their versions,
//! before any command runs.

use vstd::prelude::*;

verus! {

/// The direction of a migration.
#[derive(Clone, Copy, Debug, PartialEq, Eq, Structural)]
pub enum MigrationKind {
    /// Builds a part of the schema.
    Up,
    /// Takes a part of the schema down again.
    Down,
}

/// One step in the history of the schema.
#[derive(Clone, Copy, Debug, PartialEq, Eq)]
pub struct Migration {
    pub version: i64,
    pub description: &'static str,
    pub sql: &'static str,
    pub kind: MigrationKind,
}

/// Creates the family members and the items tracked for them.
pub const INITIAL_TABLES_SQL: &'static str = "
                CREATE TABLE IF NOT EXISTS family_members (
                    id INTEGER PRIMARY KEY AUTOINCREMENT,
                    name TEXT NOT NULL,
                    icon TEXT NOT NULL,
                    created_at DATETIME DEFAULT CURRENT_TIMESTAMP
                );

                CREATE TABLE IF NOT EXISTS tracked_items (
                    id INTEGER PRIMARY KEY AUTOINCREMENT,
                    family_member_id INTEGER NOT NULL,
                    name TEXT NOT NULL,
                    category TEXT,
                    value REAL,
                    notes TEXT,
                    tracked_at DATETIME DEFAULT CURRENT_TIMESTAMP,
                    FOREIGN KEY (family_member_id) REFERENCES family_members(id) ON DELETE CASCADE
                );
            ";

/// Creates the diet entries and their indexes. An entry belongs to a family
/// member and goes when the member goes.
pub const DIET_ENTRIES_SQL: &'static str = "
                CREATE TABLE IF NOT EXISTS diet_entries (
                    id INTEGER PRIMARY KEY AUTOINCREMENT,
                    member_id INTEGER NOT NULL,
                    timestamp DATETIME NOT NULL,
                    meal_type TEXT NOT NULL,
                    description TEXT NOT NULL,
                    calories INTEGER,
                    notes TEXT,
                    FOREIGN KEY (member_id) REFERENCES family_members(id) ON DELETE CASCADE
                );

                CREATE INDEX IF NOT EXISTS idx_diet_entries_member_id ON diet_entries(member_id);
                CREATE INDEX IF NOT EXISTS idx_diet_entries_timestamp ON diet_entries(timestamp);
                CREATE INDEX IF NOT EXISTS idx_diet_entries_member_timestamp ON diet_entries(member_id, timestamp);
            ";

/// The two migrations, oldest first: version 1 creates the family members
/// and their tracked items, version 2 the diet entries. Both build.
pub fn get_migrations() -> (migrations: Vec<Migration>)
    ensures
        migrations@.len() == 2,
        migrations@[0].version == 1,
        migrations@[0].description@ == "create_initial_tables"@,
        migrations@[0].sql@ == INITIAL_TABLES_SQL@,
        migrations@[0].kind == MigrationKind::Up,
        migrations@[1].version == 2,
        migrations@[1].description@ == "create_diet_entries_table"@,
        migrations@[1].sql@ == DIET_ENTRIES_SQL@,
        migrations@[1].kind == MigrationKind::Up,
{
    let mut migrations: Vec<Migration> = Vec::new();
    migrations.push(
        Migration {
            version: 1,
            description: "create_initial_tables",
            sql: INITIAL_TABLES_SQL,
            kind: MigrationKind::Up,
        },
    );
    migrations.push(
        Migration {
            version: 2,
            description: "create_diet_entries_table",
            sql: DIET_ENTRIES_SQL,
            kind: MigrationKind::Up,
        },
    );
    migrations
}

} // verus!
