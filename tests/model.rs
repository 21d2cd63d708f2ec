use libtmsu::file::File;
use libtmsu::migrations::{pending, SchemaVersion};
use libtmsu::parser::parse;
use libtmsu::path::PathScope;
use libtmsu::upgrade::upgrade;
use libtmsu::upgrade::UpgradeStep::{
    CreateSchema, RecreateImplicationTable, RecreateVersionTable, RenameFingerprintAlgorithmSetting,
    UpdateFingerprintAlgorithms, UpdateSchemaVersion,
};

#[test]
fn implicit_and_equals_explicit_and() {
    assert_eq!(parse("a b").unwrap(), parse("a and b").unwrap());
    assert_eq!(parse("a b c").unwrap(), parse("a and b and c").unwrap());
}

#[test]
fn blank_text_has_no_expression() {
    assert_eq!(None, parse("").unwrap());
    assert_eq!(None, parse("  \t\n").unwrap());
}

#[test]
fn malformed_text_reports_position() {
    assert_eq!(4, parse("a or").unwrap_err().position);
    assert_eq!(0, parse(")").unwrap_err().position);
    assert_eq!(2, parse("a !b").unwrap_err().position);
    assert_eq!(2, parse("a \"b").unwrap_err().position);
    assert_eq!(4, parse("(a b").unwrap_err().position);
    assert_eq!(4, parse("a = (").unwrap_err().position);
    assert_eq!(
        "query syntax error at position 4",
        parse("a or").unwrap_err().message()
    );
}

#[test]
fn escapes_and_word_operators() {
    let escaped = parse("a\\ b \\and").unwrap().unwrap();
    let names: Vec<String> = escaped.tags().into_iter().map(|t| t.0).collect();
    assert_eq!(vec!["a b".to_string(), "and".to_string()], names);

    assert_eq!(parse("x eq 1").unwrap(), parse("x == 1").unwrap());
    assert_eq!(parse("x ne 1").unwrap(), parse("x != 1").unwrap());
    assert_eq!(parse("x lt 1 y ge 2").unwrap(), parse("x < 1 and y >= 2").unwrap());
    assert_eq!(parse("not not a").unwrap(), parse("not (not a)").unwrap());
}

#[test]
fn file_path_joins_directory_and_name() {
    let mut file = File {
        id: 1,
        directory: "/some/dir".to_string(),
        name: "name".to_string(),
        fingerprint: String::new(),
        mod_time: String::new(),
        size: 0,
        is_dir: false,
    };
    assert_eq!("/some/dir/name", file.path());
    file.directory = "/".to_string();
    assert_eq!("/name", file.path());
    file.directory = String::new();
    assert_eq!("name", file.path());
}

#[test]
fn path_scope_normalises() {
    let scope = PathScope::from_text("/a//b/./c/").unwrap();
    assert_eq!("/a/b/c", scope.path);
    assert_eq!("/a/b", scope.directory);
    assert_eq!("c", scope.name);

    let top = PathScope::from_text("/a").unwrap();
    assert_eq!("/", top.directory);
    assert_eq!("a", top.name);

    assert!(PathScope::from_text("/").is_none());
    assert!(PathScope::from_text(".").is_none());
}

#[test]
fn pending_migrations_follow_the_recorded_version() {
    let versions = |current| -> Vec<u32> { pending(current).iter().map(|m| m.version).collect() };
    assert_eq!(vec![1, 2], versions(None));
    assert_eq!(vec![1, 2], versions(Some(0)));
    assert_eq!(vec![2], versions(Some(1)));
    assert!(versions(Some(2)).is_empty());
    assert!(versions(Some(99)).is_empty());
}

#[test]
fn schema_version_text() {
    assert_eq!("0.7.0-1", SchemaVersion::from_tuple(0, 7, 0, 1).to_text());
    assert_eq!("10.23.4-56", SchemaVersion::from_tuple(10, 23, 4, 56).to_text());
}

#[test]
fn nesting_beyond_the_limit_is_a_syntax_error() {
    let shallow = format!("{}a{}", "(".repeat(100), ")".repeat(100));
    assert!(parse(&shallow).unwrap().is_some());

    let deep = format!("{}a{}", "(".repeat(600), ")".repeat(600));
    let error = parse(&deep).unwrap_err();
    assert!(error.position < 600);

    let chain = vec!["t"; 300].join(" ");
    assert_eq!(300, parse(&chain).unwrap().unwrap().tags().len());
}

#[test]
fn legacy_upgrade_steps() {
    assert!(upgrade(Some(SchemaVersion::from_tuple(0, 7, 0, 1))).is_empty());
    assert_eq!(
        vec![
            CreateSchema,
            RenameFingerprintAlgorithmSetting,
            RecreateImplicationTable,
            UpdateFingerprintAlgorithms,
            RecreateVersionTable,
            UpdateSchemaVersion
        ],
        upgrade(None)
    );
    assert_eq!(
        vec![UpdateFingerprintAlgorithms, RecreateVersionTable, UpdateSchemaVersion],
        upgrade(Some(SchemaVersion::from_tuple(0, 6, 0, 0)))
    );
    assert_eq!(
        vec![RecreateVersionTable, UpdateSchemaVersion],
        upgrade(Some(SchemaVersion::from_tuple(0, 7, 0, 0)))
    );
    assert_eq!(
        vec![UpdateSchemaVersion],
        upgrade(Some(SchemaVersion::from_tuple(1, 0, 0, 0)))
    );
}

#[test]
fn schema_versions_order_by_parts() {
    let a = SchemaVersion::from_tuple(0, 6, 9, 9);
    let b = SchemaVersion::from_tuple(0, 7, 0, 0);
    assert!(a.is_before(&b));
    assert!(!b.is_before(&a));
    assert!(!a.is_before(&a));
    assert_eq!(SchemaVersion::from_tuple(0, 7, 0, 1), SchemaVersion::latest());
}
