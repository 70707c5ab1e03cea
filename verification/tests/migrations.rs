use board_app::db::migrations::{is_migration_file, pending_migrations, sort_file_names};

#[test]
fn migration_files_are_sql_files_with_a_stem() {
    assert!(is_migration_file("001_init.sql"));
    assert!(is_migration_file("a.sql"));
    assert!(is_migration_file("x.tar.sql"));
    assert!(is_migration_file("..sql"));
    assert!(!is_migration_file(".sql"));
    assert!(!is_migration_file("sql"));
    assert!(!is_migration_file("001_init.SQL"));
    assert!(!is_migration_file("notes.sqlx"));
    assert!(!is_migration_file("README.md"));
    assert!(!is_migration_file(""));
}

#[test]
fn file_names_sort_lexically() {
    let names = vec![
        "010_scenario.sql".to_string(),
        "002_unit.sql".to_string(),
        "README.md".to_string(),
        "001_init.sql".to_string(),
        "002_unit.sql".to_string(),
        "b".to_string(),
        "a".to_string(),
        "é.sql".to_string(),
    ];
    let sorted = sort_file_names(names.clone());
    let mut expected = names;
    expected.sort();
    assert_eq!(sorted, expected);
    assert_eq!(sorted[0], "001_init.sql");
    assert_eq!(sorted[1], "002_unit.sql");
    assert_eq!(sorted[2], "002_unit.sql");
    assert_eq!(sorted[3], "010_scenario.sql");
}

#[test]
fn sorting_nothing_gives_nothing() {
    assert!(sort_file_names(Vec::new()).is_empty());
}

#[test]
fn pending_migrations_skip_recorded_and_non_sql_files() {
    let sorted = sort_file_names(vec![
        "003_items.sql".to_string(),
        "001_init.sql".to_string(),
        "notes.txt".to_string(),
        "002_unit.sql".to_string(),
    ]);
    let applied = vec!["001_init.sql".to_string(), "999_gone.sql".to_string()];
    assert_eq!(
        pending_migrations(&sorted, &applied),
        vec!["002_unit.sql".to_string(), "003_items.sql".to_string()]
    );
    assert!(pending_migrations(&sorted, &sorted).is_empty());
    assert_eq!(pending_migrations(&sorted, &Vec::new()).len(), 3);
}
