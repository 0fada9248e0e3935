use migration_registry::command::{run_migrate_generate, Generation};
use migration_registry::identifier::{migration_identifier, Timestamp};

fn reading(year: i32, month: u32, day: u32, hour: u32, minute: u32, second: u32) -> Timestamp {
    Timestamp { year, month, day, hour, minute, second }
}

#[test]
fn identifier_has_fixed_width_reading() {
    assert_eq!(
        migration_identifier("create_table", &reading(2022, 1, 1, 0, 0, 1)),
        "m20220101_000001_create_table"
    );
    assert_eq!(
        migration_identifier("test_name", &reading(2024, 2, 29, 23, 59, 59)),
        "m20240229_235959_test_name"
    );
    assert_eq!(migration_identifier("", &reading(7, 10, 9, 8, 7, 6)), "m00071009_080706_");
}

#[test]
fn identifier_signs_years_outside_four_digits() {
    assert_eq!(
        migration_identifier("x", &reading(10000, 1, 1, 0, 0, 0)),
        "m+100000101_000000_x"
    );
    assert_eq!(
        migration_identifier("x", &reading(262142, 12, 31, 1, 2, 3)),
        "m+2621421231_010203_x"
    );
    assert_eq!(migration_identifier("x", &reading(-1, 3, 4, 5, 6, 7)), "m-00010304_050607_x");
    assert_eq!(
        migration_identifier("x", &reading(-262143, 1, 1, 0, 0, 0)),
        "m-2621430101_000000_x"
    );
    assert_eq!(migration_identifier("x", &reading(0, 1, 1, 0, 0, 0)), "m00000101_000000_x");
    assert_eq!(migration_identifier("x", &reading(9999, 1, 1, 0, 0, 0)), "m99990101_000000_x");
}

#[test]
fn identifiers_one_second_apart_sort_in_order() {
    let pairs = [
        (reading(2022, 1, 1, 0, 0, 1), reading(2022, 1, 1, 0, 0, 2)),
        (reading(2022, 1, 1, 0, 0, 59), reading(2022, 1, 1, 0, 1, 0)),
        (reading(2022, 1, 1, 0, 59, 59), reading(2022, 1, 1, 1, 0, 0)),
        (reading(2022, 1, 1, 23, 59, 59), reading(2022, 1, 2, 0, 0, 0)),
        (reading(2022, 1, 31, 23, 59, 59), reading(2022, 2, 1, 0, 0, 0)),
        (reading(2022, 12, 31, 23, 59, 59), reading(2023, 1, 1, 0, 0, 0)),
        (reading(999, 12, 31, 23, 59, 59), reading(1000, 1, 1, 0, 0, 0)),
    ];
    for (earlier, later) in pairs {
        let first = migration_identifier("zzz", &earlier);
        let second = migration_identifier("aaa", &later);
        assert!(first < second, "{} should sort before {}", first, second);
    }
}

#[test]
fn timestamp_check_knows_the_calendar() {
    assert!(reading(2024, 2, 29, 0, 0, 0).check());
    assert!(!reading(2023, 2, 29, 0, 0, 0).check());
    assert!(reading(2000, 2, 29, 0, 0, 0).check());
    assert!(!reading(1900, 2, 29, 0, 0, 0).check());
    assert!(reading(-4, 2, 29, 0, 0, 0).check());
    assert!(!reading(-1, 2, 29, 0, 0, 0).check());
    assert!(reading(2022, 4, 30, 23, 59, 59).check());
    assert!(!reading(2022, 4, 31, 0, 0, 0).check());
    assert!(!reading(2022, 0, 1, 0, 0, 0).check());
    assert!(!reading(2022, 13, 1, 0, 0, 0).check());
    assert!(!reading(2022, 1, 0, 0, 0, 0).check());
    assert!(!reading(2022, 1, 1, 24, 0, 0).check());
    assert!(!reading(2022, 1, 1, 0, 60, 0).check());
    assert!(!reading(2022, 1, 1, 0, 0, 60).check());
    assert!(reading(262142, 12, 31, 0, 0, 0).check());
    assert!(!reading(262143, 1, 1, 0, 0, 0).check());
    assert!(reading(-262143, 1, 1, 0, 0, 0).check());
    assert!(!reading(-262144, 12, 31, 0, 0, 0).check());
}

#[test]
fn generation_names_the_unit_and_places_its_file() {
    let now = reading(2022, 1, 1, 0, 0, 2);
    assert_eq!(
        run_migrate_generate("migration", true, "test_name", &now),
        Some(Generation {
            migration_name: "m20220101_000002_test_name".to_string(),
            migration_filepath: "migration/src/m20220101_000002_test_name.rs".to_string(),
        })
    );
    assert_eq!(
        run_migrate_generate("src/migrations/", false, "test_name", &now),
        Some(Generation {
            migration_name: "m20220101_000002_test_name".to_string(),
            migration_filepath: "src/migrations/m20220101_000002_test_name.rs".to_string(),
        })
    );
    assert_eq!(
        run_migrate_generate("migration", true, "test_name", &reading(2022, 2, 30, 0, 0, 0)),
        None
    );
}
