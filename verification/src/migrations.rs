//! The database migrations: the schema steps applied at application start,
//! in order of their version numbers.
//!
//! The surrounding program hands these to its database layer; the migration
//! data itself, and the rule that versions match positions, live here.

use vstd::prelude::*;

verus! {

/// The direction of a migration.
pub enum MigrationKind {
    Up,
    Down,
}

/// One database migration step.
pub struct Migration {
    pub version: i64,
    pub description: &'static str,
    pub sql: &'static str,
    pub kind: MigrationKind,
}

/// The schema of the first migration: the detectable-application table with
/// its search indexes, and the application settings table with its defaults.
pub const MIGRATION_V1_SQL: &'static str = "
            CREATE TABLE IF NOT EXISTS detectable (
                id TEXT PRIMARY KEY,
                name TEXT,
                aliases TEXT NULL,              -- JSON array as TEXT
                executables TEXT NOT NULL,      -- JSON array as TEXT
                hook BOOLEAN,
                overlay BOOLEAN,
                overlay_compatibility_hook BOOLEAN,
                overlay_methods TEXT,
                overlay_warn BOOLEAN,
                themes TEXT NULL,               -- JSON array as TEXT
                aliases_search TEXT,            -- Lowercase, space-separated for fuzzy search
                themes_search TEXT              -- Lowercase, space-separated for fuzzy search
            );

            -- Index for fast lookup by name
            CREATE INDEX IF NOT EXISTS idx_detectable_name ON detectable(name);

            -- Index for fuzzy search on aliases
            CREATE INDEX IF NOT EXISTS idx_detectable_aliases_search ON detectable(aliases_search);

            -- Index for fuzzy search on themes
            CREATE INDEX IF NOT EXISTS idx_detectable_themes_search ON detectable(themes_search);

            CREATE TABLE IF NOT EXISTS app_settings (
                id INTEGER PRIMARY KEY AUTOINCREMENT,
                key TEXT UNIQUE NOT NULL,
                value TEXT,
                description TEXT,
                created_at DATETIME DEFAULT CURRENT_TIMESTAMP,
                updated_at DATETIME DEFAULT CURRENT_TIMESTAMP
            );

            -- Insert default app settings
            INSERT OR IGNORE INTO app_settings (key, value, description) VALUES
                ('app_version', '25.06.12', 'Current application version'),
                ('db_version', '1', 'Current database schema version'),
                ('default_game_path', '', 'Default directory for game executables');
        ";

/// The first migration: creates the foundational tables.
pub fn migration_v1() -> (m: Migration)
    ensures
        m.version == 1,
        m.description@ == "create_initial_tables"@,
        m.sql@ == MIGRATION_V1_SQL@,
        m.kind is Up,
{
    Migration {
        version: 1,
        description: "create_initial_tables",
        sql: MIGRATION_V1_SQL,
        kind: MigrationKind::Up,
    }
}

/// All migrations, in order of their version numbers: each migration's
/// version matches its position, and every migration has a description.
pub fn get_migrations() -> (v: Vec<Migration>)
    ensures
        v@.len() == 1,
        v@[0].version == 1,
        v@[0].description@ == "create_initial_tables"@,
        v@[0].sql@ == MIGRATION_V1_SQL@,
        v@[0].kind is Up,
        forall|i: int| 0 <= i < v@.len() ==> (#[trigger] v@[i]).version == i + 1,
        forall|i: int| 0 <= i < v@.len() ==> (#[trigger] v@[i]).description@.len() > 0,
{
    let mut v: Vec<Migration> = Vec::new();
    v.push(migration_v1());
    proof {
        reveal_strlit("create_initial_tables");
    }
    v
}

/// The current migration version: the number of migrations.
pub fn get_current_version() -> (n: u32)
    ensures
        n == 1,
{
    let migrations = get_migrations();
    migrations.len() as u32
}

} // verus!
