use game_dispatcher::get_current_version;
use game_dispatcher::get_migrations;
use game_dispatcher::MigrationKind;

#[test]
fn test_migrations_are_ordered() {
    let migrations = get_migrations();
    for (i, migration) in migrations.iter().enumerate() {
        assert_eq!(
            migration.version,
            (i + 1) as i64,
            "Migration version should match its position in the vector"
        );
    }
}

#[test]
fn test_migration_descriptions_exist() {
    let migrations = get_migrations();
    for migration in migrations {
        assert!(
            !migration.description.is_empty(),
            "Every migration should have a description"
        );
    }
}

#[test]
fn test_first_migration_creates_initial_tables() {
    let migrations = get_migrations();
    assert_eq!(migrations.len(), 1);
    assert_eq!(migrations[0].version, 1);
    assert_eq!(migrations[0].description, "create_initial_tables");
    assert!(matches!(migrations[0].kind, MigrationKind::Up));
    assert!(migrations[0].sql.contains("CREATE TABLE IF NOT EXISTS detectable"));
    assert!(migrations[0].sql.contains("CREATE TABLE IF NOT EXISTS app_settings"));
}

#[test]
fn test_current_version_counts_migrations() {
    assert_eq!(get_current_version(), 1);
    assert_eq!(get_current_version() as usize, get_migrations().len());
}
