use libtmsu::builder::{file_count_sql, files_sql, QueryBuilder};
use libtmsu::common::{Casing, FileTypeSpecificity, TagSpecificity};
use libtmsu::file::File;
use libtmsu::migrations;
use libtmsu::parser::parse;
use libtmsu::sql::SqlValue;
use libtmsu::tag::Tag;
use libtmsu::validation::{missing_sql, tag_parameters, validate, value_parameters, Vocabulary};
use libtmsu::value::Value;
use rusqlite::{params_from_iter, Connection};

fn bind(parameters: Vec<SqlValue>) -> Vec<rusqlite::types::Value> {
    parameters
        .into_iter()
        .map(|p| match p {
            SqlValue::Text(s) => rusqlite::types::Value::Text(s),
            SqlValue::Integer(i) => rusqlite::types::Value::Integer(i),
        })
        .collect()
}

fn database() -> Connection {
    let conn = Connection::open_in_memory().unwrap();
    conn.execute_batch(migrations::version_table_sql()).unwrap();
    for migration in migrations::pending(None) {
        conn.execute_batch(migration.sql).unwrap();
    }
    conn
}

fn add_tag(conn: &Connection, id: i64, name: &str) {
    conn.execute("INSERT INTO tag (id, name) VALUES (?1, ?2)", (id, name))
        .unwrap();
}

fn add_value(conn: &Connection, id: i64, name: &str) {
    conn.execute("INSERT INTO value (id, name) VALUES (?1, ?2)", (id, name))
        .unwrap();
}

fn add_file(conn: &Connection, id: i64, directory: &str, name: &str, is_dir: bool) {
    conn.execute(
        "INSERT INTO file (id, directory, name, fingerprint, mod_time, size, is_dir) VALUES (?1, ?2, ?3, '', '2025-01-01 00:00:00', 0, ?4)",
        (id, directory, name, is_dir),
    )
    .unwrap();
}

fn add_file_tag(conn: &Connection, file: i64, tag: i64, value: i64) {
    conn.execute(
        "INSERT INTO file_tag (file_id, tag_id, value_id) VALUES (?1, ?2, ?3)",
        (file, tag, value),
    )
    .unwrap();
}

fn add_implication(conn: &Connection, tag: i64, value: i64, implied_tag: i64, implied_value: i64) {
    conn.execute(
        "INSERT INTO implication (tag_id, value_id, implied_tag_id, implied_value_id) VALUES (?1, ?2, ?3, ?4)",
        (tag, value, implied_tag, implied_value),
    )
    .unwrap();
}

struct Modes {
    specificity: TagSpecificity,
    casing: Casing,
    file_type: FileTypeSpecificity,
}

const DEFAULT: Modes = Modes {
    specificity: TagSpecificity::All,
    casing: Casing::Sensitive,
    file_type: FileTypeSpecificity::Any,
};

fn list(conn: &Connection, text: &str, modes: &Modes, path: Option<&str>) -> Vec<String> {
    let query = parse(text).unwrap().unwrap();
    let (sql, parameters) = files_sql(
        &query,
        &modes.specificity,
        &modes.file_type,
        &modes.casing,
        path,
    );
    let mut statement = conn.prepare(&sql).unwrap();
    statement
        .query_map(params_from_iter(bind(parameters)), |row| {
            Ok(File {
                id: row.get(0)?,
                directory: row.get(1)?,
                name: row.get(2)?,
                fingerprint: row.get(3)?,
                mod_time: row.get(4)?,
                size: row.get(5)?,
                is_dir: row.get(6)?,
            })
        })
        .unwrap()
        .map(|f| f.unwrap().path())
        .collect()
}

fn count(conn: &Connection, text: &str, modes: &Modes, path: Option<&str>) -> i64 {
    let query = parse(text).unwrap().unwrap();
    let (sql, parameters) = file_count_sql(
        &query,
        &modes.specificity,
        &modes.file_type,
        &modes.casing,
        path,
    );
    conn.query_row(&sql, params_from_iter(bind(parameters)), |row| row.get(0))
        .unwrap()
}

#[test]
fn implied_tagging_depends_on_specificity() {
    let conn = database();
    add_tag(&conn, 1, "a");
    add_tag(&conn, 2, "b");
    add_value(&conn, 1, "1");
    add_file(&conn, 1, "/x", "f1", false);
    add_file_tag(&conn, 1, 1, 1);
    add_implication(&conn, 1, 1, 2, 1);

    let all = DEFAULT;
    assert_eq!(vec!["/x/f1".to_string()], list(&conn, "b=1", &all, None));

    let explicit = Modes {
        specificity: TagSpecificity::ExplicitOnly,
        ..DEFAULT
    };
    assert!(list(&conn, "b=1", &explicit, None).is_empty());
    assert_eq!(vec!["/x/f1".to_string()], list(&conn, "a=1", &explicit, None));
}

#[test]
fn cyclic_implications_terminate() {
    let conn = database();
    add_tag(&conn, 1, "a");
    add_tag(&conn, 2, "b");
    add_file(&conn, 1, "/x", "f1", false);
    add_file(&conn, 2, "/x", "f2", false);
    add_file_tag(&conn, 1, 1, 0);
    add_implication(&conn, 1, 0, 2, 0);
    add_implication(&conn, 2, 0, 1, 0);

    assert_eq!(vec!["/x/f1".to_string()], list(&conn, "b", &DEFAULT, None));
    assert_eq!(vec!["/x/f1".to_string()], list(&conn, "a", &DEFAULT, None));
    assert_eq!(vec!["/x/f2".to_string()], list(&conn, "not a", &DEFAULT, None));
}

#[test]
fn case_sensitivity_of_tag_names() {
    let conn = database();
    add_tag(&conn, 1, "Foo");
    add_file(&conn, 1, "/x", "f1", false);
    add_file_tag(&conn, 1, 1, 0);

    let insensitive = Modes {
        casing: Casing::Insensitive,
        ..DEFAULT
    };
    assert_eq!(vec!["/x/f1".to_string()], list(&conn, "foo", &insensitive, None));
    assert!(list(&conn, "foo", &DEFAULT, None).is_empty());
    assert_eq!(vec!["/x/f1".to_string()], list(&conn, "Foo", &DEFAULT, None));
}

#[test]
fn path_scopes() {
    let conn = database();
    add_tag(&conn, 1, "t");
    add_file(&conn, 1, "/a/b", "c", false);
    add_file_tag(&conn, 1, 1, 0);

    for scope in ["/a/b", "/a/b/c", "/a", "/a/b/", "/"] {
        assert_eq!(
            vec!["/a/b/c".to_string()],
            list(&conn, "t", &DEFAULT, Some(scope)),
            "scope {scope}"
        );
    }
    assert!(list(&conn, "t", &DEFAULT, Some("/a/bx")).is_empty());
    assert!(list(&conn, "t", &DEFAULT, Some("/a/b/cd")).is_empty());
}

#[test]
fn file_type_restriction() {
    let conn = database();
    add_tag(&conn, 1, "t");
    add_file(&conn, 1, "/a", "dir", true);
    add_file(&conn, 2, "/a", "file", false);
    add_file_tag(&conn, 1, 1, 0);
    add_file_tag(&conn, 2, 1, 0);

    let files = Modes {
        file_type: FileTypeSpecificity::FileOnly,
        ..DEFAULT
    };
    let dirs = Modes {
        file_type: FileTypeSpecificity::DirectoryOnly,
        ..DEFAULT
    };
    assert_eq!(vec!["/a/file".to_string()], list(&conn, "t", &files, None));
    assert_eq!(vec!["/a/dir".to_string()], list(&conn, "t", &dirs, None));
    assert_eq!(2, list(&conn, "t", &DEFAULT, None).len());
}

#[test]
fn count_agrees_with_listing() {
    let conn = database();
    add_tag(&conn, 1, "colour");
    add_tag(&conn, 2, "Size");
    add_tag(&conn, 3, "shape");
    add_value(&conn, 1, "red");
    add_value(&conn, 2, "big");
    add_file(&conn, 1, "/p", "one", false);
    add_file(&conn, 2, "/p", "two", false);
    add_file(&conn, 3, "/q", "three", true);
    add_file_tag(&conn, 1, 1, 1);
    add_file_tag(&conn, 2, 2, 2);
    add_file_tag(&conn, 3, 3, 0);
    add_implication(&conn, 3, 0, 1, 1);

    let expressions = [
        "colour",
        "colour = red",
        "colour != red",
        "size == big or shape",
        "not colour",
        "(colour or size) and not shape",
        "colour > blue",
        "size <= big",
    ];
    for text in expressions {
        for specificity in [TagSpecificity::All, TagSpecificity::ExplicitOnly] {
            for casing in [Casing::Sensitive, Casing::Insensitive] {
                let modes = Modes {
                    specificity,
                    casing,
                    file_type: FileTypeSpecificity::Any,
                };
                let listed = list(&conn, text, &modes, None);
                assert_eq!(listed.len() as i64, count(&conn, text, &modes, None), "{text}");
            }
        }
    }
    assert_eq!(2, list(&conn, "colour = red", &DEFAULT, None).len());
    assert_eq!(1, list(&conn, "colour != red", &DEFAULT, None).len());
}

#[test]
fn ordering_is_by_directory_then_name() {
    let conn = database();
    add_tag(&conn, 1, "t");
    add_file(&conn, 1, "/b", "a", false);
    add_file(&conn, 2, "/a", "z", false);
    add_file(&conn, 3, "/a", "b", false);
    for id in 1..=3 {
        add_file_tag(&conn, id, 1, 0);
    }
    assert_eq!(
        vec!["/a/b".to_string(), "/a/z".to_string(), "/b/a".to_string()],
        list(&conn, "t", &DEFAULT, None)
    );
}

#[test]
fn unknown_names_are_all_reported() {
    let result = validate(&vec![Tag("X".into())], &vec![Value("Y".into())]);
    let error = result.unwrap_err();
    assert_eq!(
        &vec!["unknown tag: X".to_string(), "unknown value: Y".to_string()],
        error.lines()
    );
    assert!(validate(&vec![], &vec![]).is_ok());
}

#[test]
fn missing_names_come_from_one_statement() {
    let conn = database();
    add_tag(&conn, 1, "Known");
    add_value(&conn, 1, "present");

    let run = |vocabulary, names: Vec<SqlValue>, casing| -> Vec<String> {
        let (sql, parameters) = missing_sql(vocabulary, &names, &casing).unwrap();
        let mut statement = conn.prepare(&sql).unwrap();
        statement
            .query_map(params_from_iter(bind(parameters)), |row| row.get(0))
            .unwrap()
            .map(|r| r.unwrap())
            .collect()
    };

    let tags = tag_parameters(&vec![Tag("X".into()), Tag("known".into())]);
    assert_eq!(
        vec!["X".to_string(), "known".to_string()],
        run(Vocabulary::Tags, tags.clone(), Casing::Sensitive)
    );
    assert_eq!(
        vec!["X".to_string()],
        run(Vocabulary::Tags, tags, Casing::Insensitive)
    );
    let values = value_parameters(&vec![Value("Y".into()), Value("present".into())]);
    assert_eq!(
        vec!["Y".to_string()],
        run(Vocabulary::Values, values, Casing::Sensitive)
    );
    assert!(missing_sql(Vocabulary::Tags, &[], &Casing::Sensitive).is_none());
}

#[test]
fn no_query_lists_every_file() {
    let conn = database();
    add_file(&conn, 1, "/a", "x", false);
    add_file(&conn, 2, "/a", "y", true);
    let builder = QueryBuilder::new(&TagSpecificity::All, &Casing::Sensitive);
    let (sql, parameters) = builder.file_query(None, &FileTypeSpecificity::FileOnly, None);
    assert!(parameters.is_empty());
    let names: Vec<String> = conn
        .prepare(&sql)
        .unwrap()
        .query_map([], |row| row.get(2))
        .unwrap()
        .map(|r| r.unwrap())
        .collect();
    assert_eq!(vec!["x".to_string()], names);
}

fn table_exists(conn: &Connection, name: &str) -> bool {
    conn.query_row(
        "SELECT count(1) FROM sqlite_master WHERE type = 'table' AND name = ?1",
        [name],
        |row| row.get::<usize, i64>(0),
    )
    .unwrap()
        == 1
}

fn schema_version_of(conn: &Connection) -> Option<u32> {
    conn.query_row(migrations::read_version_sql(), [], |row| row.get(0))
        .ok()
}

fn record_version(conn: &Connection, version: u32) {
    let rows = conn
        .execute(migrations::update_version_sql(), [version])
        .unwrap();
    if rows == 0 {
        conn.execute(migrations::insert_version_sql(), [version])
            .unwrap();
    }
}

#[test]
fn new_database() {
    let conn = Connection::open_in_memory().unwrap();
    conn.execute(migrations::version_table_sql(), ()).unwrap();
    for migration in migrations::pending(schema_version_of(&conn)) {
        conn.execute_batch(migration.sql).unwrap();
        record_version(&conn, migration.version);
    }

    for table in [
        "file",
        "file_tag",
        "implication",
        "query",
        "schema_version",
        "setting",
        "tag",
        "value",
    ] {
        assert!(table_exists(&conn, table), "{table}");
    }

    assert_eq!(Some(2), schema_version_of(&conn));
    assert!(migrations::pending(schema_version_of(&conn)).is_empty());
}

#[test]
fn schema_version() {
    let conn = Connection::open_in_memory().unwrap();
    conn.execute(migrations::version_table_sql(), ()).unwrap();
    assert_eq!(None, schema_version_of(&conn));

    record_version(&conn, 99);
    assert_eq!(Some(99), schema_version_of(&conn));
    record_version(&conn, 100);
    assert_eq!(Some(100), schema_version_of(&conn));
}

#[test]
fn restrictions_apply_to_the_whole_predicate() {
    let conn = database();
    add_tag(&conn, 1, "a");
    add_tag(&conn, 2, "b");
    add_file(&conn, 1, "/x", "dir", true);
    add_file(&conn, 2, "/x", "file", false);
    add_file(&conn, 3, "/y", "other", false);
    add_file_tag(&conn, 1, 1, 0);
    add_file_tag(&conn, 2, 2, 0);
    add_file_tag(&conn, 3, 1, 0);

    let files = Modes {
        file_type: FileTypeSpecificity::FileOnly,
        ..DEFAULT
    };
    assert_eq!(
        vec!["/x/file".to_string(), "/y/other".to_string()],
        list(&conn, "a or b", &files, None)
    );
    assert_eq!(2, count(&conn, "a or b", &files, None));
    assert_eq!(
        vec!["/x/dir".to_string(), "/x/file".to_string()],
        list(&conn, "a or b", &DEFAULT, Some("/x"))
    );
    assert_eq!(2, count(&conn, "a or b", &DEFAULT, Some("/x")));
}
