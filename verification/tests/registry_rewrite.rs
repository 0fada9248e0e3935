use migration_registry::error::{StructureFault, SyncError};
use migration_registry::pattern::MigrationPattern;
use migration_registry::document::{check_identifier, update_migrator, RegistryDocument};
use migration_registry::outline::{
    enumeration_source, insertion_index, locate_enumeration, migration_list, plan_rewrite,
    Located, Node, RewritePlan,
};
use regex::Regex;

const REGISTRY: &str = "pub use sea_orm_migration::prelude::*;

mod m20220101_000001_create_table;

pub struct Migrator;

#[async_trait::async_trait]
impl MigratorTrait for Migrator {
    fn migrations() -> Vec<Box<dyn MigrationTrait>> {
        vec![Box::new(m20220101_000001_create_table::Migration)]
    }
}
";

fn formatted(tokens: &str) -> String {
    let tree = syn::parse_str::<syn::File>(tokens).unwrap();
    prettyplease::unparse(&tree)
}

fn synchronized(source: &str, name: &str) -> String {
    let pattern = MigrationPattern::new().unwrap();
    formatted(&update_migrator(source, name, &pattern).unwrap())
}

fn captured(pattern: &str, text: &str) -> Vec<String> {
    Regex::new(pattern)
        .unwrap()
        .captures_iter(text)
        .map(|found| found.name("name").unwrap().as_str().to_string())
        .collect()
}

#[test]
fn test_update_migrator() {
    let migration_name = "m20220101_000002_test_name";
    let migrator_content = synchronized(REGISTRY, migration_name);
    let migrations = captured(r"mod (?P<name>\w+);", &migrator_content);
    assert_eq!(migrations.len(), 2);
    assert_eq!(migrations.first().unwrap(), "m20220101_000001_create_table");
    assert_eq!(migrations.last().unwrap(), migration_name);
    let migrations = captured(r"Box::new\((?P<name>\S+)::Migration\)", &migrator_content);
    assert_eq!(migrations.len(), 2);
    assert_eq!(migrations.first().unwrap(), "m20220101_000001_create_table");
    assert_eq!(migrations.last().unwrap(), migration_name);
    println!("{}", migrator_content);
}

#[test]
fn test_update_migrator_no_mod() {
    let migration_name = "m20220101_000002_test_name";
    let mut lib_rs = REGISTRY.to_string();
    lib_rs = lib_rs.replace("mod m20220101_000001_create_table;", "");
    lib_rs = lib_rs.replace(
        "vec![Box::new(m20220101_000001_create_table::Migration)]",
        "vec![]",
    );
    let mut tmp = lib_rs.lines().collect::<Vec<_>>();
    tmp.remove(1);
    tmp.remove(2);
    lib_rs = tmp.join("\n");
    lib_rs.push('\n');

    let migrator_content = synchronized(&lib_rs, migration_name);
    let migrations = captured(r"mod (?P<name>\w+);", &migrator_content);
    assert_eq!(migrations.len(), 1);
    assert_eq!(migrations.last().unwrap(), migration_name);
    let migrations = captured(r"Box::new\((?P<name>\S+)::Migration\)", &migrator_content);
    assert_eq!(migrations.len(), 1);
    assert_eq!(migrations.last().unwrap(), migration_name);
    println!("{}", migrator_content);
}

fn module(name: &str, unit: bool) -> Node {
    Node::Module { name: name.to_string(), unit }
}

fn implementation(trait_name: &str, functions: &[Option<&str>]) -> Node {
    Node::Implementation {
        trait_name: trait_name.to_string(),
        functions: functions.iter().map(|name| name.map(|text| text.to_string())).collect(),
    }
}

fn outline_of(source: &str) -> Vec<Node> {
    let pattern = MigrationPattern::new().unwrap();
    RegistryDocument::load(source).unwrap().outline(&pattern)
}

#[test]
fn outline_reads_modules_traits_and_functions() {
    let outline = outline_of(
        "use a::b; mod helper; mod m20220101_000001_create_table; struct S; impl S { fn x() {} } \
         impl p::MigratorTrait for S { const C: u8 = 1; fn migrations() {} }",
    );
    assert_eq!(
        outline,
        vec![
            Node::Other,
            module("helper", false),
            module("m20220101_000001_create_table", true),
            Node::Other,
            Node::Other,
            implementation("MigratorTrait", &[None, Some("migrations")]),
        ]
    );
}

#[test]
fn insertion_index_follows_last_module() {
    assert_eq!(insertion_index(&vec![]), 0);
    assert_eq!(insertion_index(&vec![Node::Other, Node::Other]), 0);
    assert_eq!(
        insertion_index(&vec![Node::Other, module("a", false), Node::Other, Node::Other]),
        2
    );
    assert_eq!(
        insertion_index(&vec![module("a", true), Node::Other, module("b", false)]),
        3
    );
}

#[test]
fn migration_list_keeps_units_in_file_order() {
    let outline = vec![
        module("m20230101_000000_c", true),
        module("helper", false),
        Node::Other,
        module("m20220101_000000_a", true),
    ];
    assert_eq!(
        migration_list(&outline),
        vec!["m20230101_000000_c".to_string(), "m20220101_000000_a".to_string()]
    );
    assert_eq!(migration_list(&vec![Node::Other]), Vec::<String>::new());
}

#[test]
fn locate_enumeration_finds_first_function_of_the_one_migrator() {
    let outline = vec![
        implementation("Other", &[Some("migrations")]),
        Node::Other,
        implementation("MigratorTrait", &[None, Some("other"), Some("migrations"), Some("migrations")]),
    ];
    assert_eq!(locate_enumeration(&outline), Located::Found { item: 2, member: 2 });
}

#[test]
fn locate_enumeration_reports_missing_and_ambiguous() {
    assert_eq!(locate_enumeration(&vec![]), Located::NotFound);
    assert_eq!(
        locate_enumeration(&vec![implementation("MigratorTrait", &[Some("other"), None])]),
        Located::NotFound
    );
    assert_eq!(
        locate_enumeration(&vec![
            implementation("MigratorTrait", &[Some("migrations")]),
            Node::Other,
            implementation("MigratorTrait", &[]),
            implementation("MigratorTrait", &[]),
        ]),
        Located::Ambiguous(3)
    );
}

#[test]
fn enumeration_source_lists_handles_in_order() {
    assert_eq!(enumeration_source(&vec![]), "vec![]");
    assert_eq!(enumeration_source(&vec!["a".to_string()]), "vec![Box::new(a::Migration)]");
    assert_eq!(
        enumeration_source(&vec!["a".to_string(), "b".to_string(), "c".to_string()]),
        "vec![Box::new(a::Migration), Box::new(b::Migration), Box::new(c::Migration)]"
    );
}

#[test]
fn plan_rewrite_places_declaration_and_enumerates_units() {
    let outline = vec![
        Node::Other,
        module("m1", true),
        module("helper", false),
        Node::Other,
        implementation("MigratorTrait", &[Some("migrations")]),
    ];
    assert_eq!(
        plan_rewrite(&outline, "m2", true, true),
        Ok(RewritePlan {
            index: 3,
            item: 4,
            member: 0,
            enumeration: "vec![Box::new(m1::Migration), Box::new(m2::Migration)]".to_string(),
        })
    );
    assert_eq!(
        plan_rewrite(&outline, "other", true, false),
        Ok(RewritePlan {
            index: 3,
            item: 4,
            member: 0,
            enumeration: "vec![Box::new(m1::Migration)]".to_string(),
        })
    );
}

#[test]
fn plan_rewrite_reports_each_failure() {
    let good = vec![implementation("MigratorTrait", &[Some("migrations")])];
    assert_eq!(plan_rewrite(&good, "a b", false, false), Err(SyncError::InvalidName));
    assert_eq!(
        plan_rewrite(&vec![Node::Other], "a b", false, false),
        Err(SyncError::InvalidName)
    );
    assert_eq!(
        plan_rewrite(&vec![Node::Other], "m", true, true),
        Err(SyncError::Structure(StructureFault::NotFound))
    );
    let twice = vec![
        implementation("MigratorTrait", &[Some("migrations")]),
        implementation("MigratorTrait", &[Some("migrations")]),
    ];
    assert_eq!(
        plan_rewrite(&twice, "m", true, true),
        Err(SyncError::Structure(StructureFault::Ambiguous(2)))
    );
}

#[test]
fn check_identifier_accepts_exact_identifiers_only() {
    assert!(check_identifier("m20220101_000002_test_name"));
    assert!(check_identifier("r#fn"));
    assert!(!check_identifier(""));
    assert!(!check_identifier("fn"));
    assert!(!check_identifier(" a"));
    assert!(!check_identifier("a /* c */"));
    assert!(!check_identifier("create-table"));
    assert!(!check_identifier("a; mod b"));
}

#[test]
fn update_migrator_reports_each_failure() {
    let pattern = MigrationPattern::new().unwrap();
    assert_eq!(
        update_migrator("mod a", "m20220101_000002_x", &pattern),
        Err(SyncError::Parse)
    );
    assert_eq!(
        update_migrator(REGISTRY, "not an identifier", &pattern),
        Err(SyncError::InvalidName)
    );
    assert_eq!(
        update_migrator("mod a;", "m20220101_000002_x", &pattern),
        Err(SyncError::Structure(StructureFault::NotFound))
    );
    assert_eq!(
        update_migrator(
            "impl MigratorTrait for A { fn migrations() {} } impl x::MigratorTrait for B {}",
            "m20220101_000002_x",
            &pattern
        ),
        Err(SyncError::Structure(StructureFault::Ambiguous(2)))
    );
}

#[test]
fn rewrite_leaves_document_unchanged_on_failure() {
    let pattern = MigrationPattern::new().unwrap();
    let mut document = RegistryDocument::load("mod a; struct S;").unwrap();
    let before = document.token_text();
    assert_eq!(
        document.rewrite("m20220101_000002_x", &pattern),
        Err(SyncError::Structure(StructureFault::NotFound))
    );
    assert_eq!(document.token_text(), before);
}

#[test]
fn concrete_scenario_matches_exactly() {
    let migrator_content = synchronized(REGISTRY, "m20220101_000002_test_name");
    assert_eq!(
        migrator_content,
        "pub use sea_orm_migration::prelude::*;
mod m20220101_000001_create_table;
mod m20220101_000002_test_name;
pub struct Migrator;
#[async_trait::async_trait]
impl MigratorTrait for Migrator {
    fn migrations() -> Vec<Box<dyn MigrationTrait>> {
        vec![
            Box::new(m20220101_000001_create_table::Migration),
            Box::new(m20220101_000002_test_name::Migration)
        ]
    }
}
"
    );
}

#[test]
fn order_is_preserved_when_a_unit_is_added() {
    let source = "mod m20220101_000001_a; use x::y; mod m20220102_000001_b; mod helper; \
                  mod m20220103_000001_c; struct Gap; \
                  impl MigratorTrait for M { fn migrations() -> V { vec![] } }";
    let migrator_content = synchronized(source, "m20220104_000001_d");
    let expected = vec![
        "m20220101_000001_a".to_string(),
        "m20220102_000001_b".to_string(),
        "m20220103_000001_c".to_string(),
        "m20220104_000001_d".to_string(),
    ];
    let modules: Vec<String> = captured(r"mod (?P<name>\w+);", &migrator_content)
        .into_iter()
        .filter(|name| name != "helper")
        .collect();
    assert_eq!(modules, expected);
    assert_eq!(captured(r"Box::new\((?P<name>\S+)::Migration\)", &migrator_content), expected);
    let pattern = MigrationPattern::new().unwrap();
    let after = RegistryDocument::load(&migrator_content).unwrap();
    assert_eq!(migration_list(&after.outline(&pattern)), expected);
    assert!(migrator_content.contains("mod m20220104_000001_d;\nstruct Gap;"));
}

#[test]
fn enumeration_heals_after_drift() {
    let drifted = "mod m20220101_000001_a; mod m20220102_000001_b; \
                   impl MigratorTrait for M { fn migrations() -> V { \
                   let x = 1; vec![Box::new(m20220101_000001_a::Migration)] } }";
    let faithful = "mod m20220101_000001_a; mod m20220102_000001_b; \
                    impl MigratorTrait for M { fn migrations() -> V { \
                    vec![Box::new(m20220101_000001_a::Migration), \
                    Box::new(m20220102_000001_b::Migration)] } }";
    let healed = synchronized(drifted, "m20220103_000001_c");
    assert_eq!(healed, synchronized(faithful, "m20220103_000001_c"));
    assert_eq!(
        captured(r"Box::new\((?P<name>\S+)::Migration\)", &healed),
        vec![
            "m20220101_000001_a".to_string(),
            "m20220102_000001_b".to_string(),
            "m20220103_000001_c".to_string(),
        ]
    );
    assert!(!healed.contains("let x"));
}

#[test]
fn hand_edited_order_is_enumerated_as_declared() {
    let source = "mod m20230101_000001_late; mod m20220101_000001_early; \
                  impl MigratorTrait for M { fn migrations() -> V { vec![] } }";
    let migrator_content = synchronized(source, "m20240101_000001_new");
    assert_eq!(
        captured(r"Box::new\((?P<name>\S+)::Migration\)", &migrator_content),
        vec![
            "m20230101_000001_late".to_string(),
            "m20220101_000001_early".to_string(),
            "m20240101_000001_new".to_string(),
        ]
    );
}

#[test]
fn empty_registry_gets_one_declaration_at_the_top() {
    let source = "pub use sea_orm_migration::prelude::*;\n\npub struct Migrator;\n\n\
                  impl MigratorTrait for Migrator { fn migrations() -> V { vec![] } }\n";
    let migrator_content = synchronized(source, "m20220101_000002_test_name");
    assert!(migrator_content.starts_with("mod m20220101_000002_test_name;\n"));
    assert_eq!(
        captured(r"mod (?P<name>\w+);", &migrator_content),
        vec!["m20220101_000002_test_name".to_string()]
    );
    assert_eq!(
        captured(r"Box::new\((?P<name>\S+)::Migration\)", &migrator_content),
        vec!["m20220101_000002_test_name".to_string()]
    );
}

#[test]
fn name_that_is_no_unit_is_declared_but_not_enumerated() {
    let migrator_content = synchronized(REGISTRY, "helper");
    assert_eq!(
        captured(r"mod (?P<name>\w+);", &migrator_content),
        vec!["m20220101_000001_create_table".to_string(), "helper".to_string()]
    );
    assert_eq!(
        captured(r"Box::new\((?P<name>\S+)::Migration\)", &migrator_content),
        vec!["m20220101_000001_create_table".to_string()]
    );
}

#[test]
fn formatting_is_stable_under_reparse() {
    let once = synchronized(REGISTRY, "m20220101_000002_test_name");
    assert_eq!(formatted(&once), once);
    let pattern = MigrationPattern::new().unwrap();
    let tokens = RegistryDocument::load(&once).unwrap().token_text();
    assert_eq!(formatted(&tokens), once);
    assert!(pattern.is_match("m20220101_000002_test_name"));
}

#[test]
fn pattern_is_found_anywhere_in_a_name() {
    let pattern = MigrationPattern::new().unwrap();
    assert!(pattern.is_match("m20220101_000001_create_table"));
    assert!(pattern.is_match("xm20220101_000001_a"));
    assert!(!pattern.is_match("m20220101_000001_"));
    assert!(!pattern.is_match("m2022010_000001_a"));
    assert!(!pattern.is_match("helper"));
    assert!(!pattern.is_match(""));
}

#[test]
fn strings_and_comments_are_no_anchors() {
    let source = "const A: &str = \"mod m20220101_000001_fake; impl MigratorTrait for X {}\";\n\
                  // mod m20220101_000002_fake;\n\
                  mod m20220101_000003_real;\n\
                  impl MigratorTrait for Migrator { fn migrations() -> V { vec![] } }\n";
    let outline = outline_of(source);
    assert_eq!(insertion_index(&outline), 2);
    assert_eq!(migration_list(&outline), vec!["m20220101_000003_real".to_string()]);
    assert_eq!(locate_enumeration(&outline), Located::Found { item: 2, member: 0 });
}

#[test]
fn function_declared_without_block_gets_one() {
    let source = "#![allow(unused)]\nmod m20220101_000001_a;\n\
                  impl MigratorTrait for M { fn migrations() -> V; }\n";
    let migrator_content = synchronized(source, "r#m20220101_000002_b");
    assert_eq!(
        migrator_content,
        "#![allow(unused)]
mod m20220101_000001_a;
mod r#m20220101_000002_b;
impl MigratorTrait for M {
    fn migrations() -> V {
        vec![
            Box::new(m20220101_000001_a::Migration),
            Box::new(r#m20220101_000002_b::Migration)
        ]
    }
}
"
    );
}

#[test]
fn token_text_is_rendered_by_the_parser() {
    let document = RegistryDocument::load("mod   a ;\n\nstruct S { x : u8 }").unwrap();
    assert_eq!(document.token_text(), "mod a ; struct S { x : u8 }");
}
