//! The schema and the ordered migrations that build it.

use vstd::prelude::*;

use crate::text::push_decimal;

verus! {

/// A step of the schema's evolution: the version it brings the schema to,
/// and the statements that do so.
#[derive(Clone, Copy, Debug)]
pub struct Migration {
    pub version: u32,
    pub sql: &'static str,
}

/// The statement that creates the table recording the schema version.
pub fn version_table_sql() -> &'static str {
    "CREATE TABLE IF NOT EXISTS schema_version (version INTEGER NOT NULL);"
}

/// The statement that reads the recorded schema version.
pub fn read_version_sql() -> &'static str {
    "SELECT version FROM schema_version;"
}

/// The statement that records a schema version over an existing row.
pub fn update_version_sql() -> &'static str {
    "UPDATE schema_version SET version = ?1;"
}

/// The statement that records a schema version where no row exists yet.
pub fn insert_version_sql() -> &'static str {
    "INSERT INTO schema_version (version) VALUES (?1);"
}

/// The versions of every migration, in the order they apply.
pub open spec fn migration_versions() -> Seq<u32> {
    seq![1u32, 2u32]
}

/// Every migration, in strictly ascending order of version.
pub fn migrations() -> (r: Vec<Migration>)
    ensures
        r@.map_values(|m: Migration| m.version) == migration_versions(),
{
    let r = vec![
        Migration {
            version: 1,
            sql: "CREATE TABLE IF NOT EXISTS tag (id INTEGER PRIMARY KEY, name TEXT NOT NULL);
CREATE TABLE IF NOT EXISTS value (id INTEGER PRIMARY KEY, name TEXT NOT NULL, CONSTRAINT con_value_name UNIQUE (name));
CREATE TABLE IF NOT EXISTS file (id INTEGER PRIMARY KEY, directory TEXT NOT NULL, name TEXT NOT NULL, fingerprint TEXT NOT NULL, mod_time DATETIME NOT NULL, size INTEGER NOT NULL, is_dir BOOLEAN NOT NULL, CONSTRAINT con_file_path UNIQUE (directory, name));
CREATE TABLE IF NOT EXISTS file_tag (file_id INTEGER NOT NULL, tag_id INTEGER NOT NULL, value_id INTEGER NOT NULL, PRIMARY KEY (file_id, tag_id, value_id));
CREATE TABLE IF NOT EXISTS implication (tag_id INTEGER NOT NULL, value_id INTEGER NOT NULL, implied_tag_id INTEGER NOT NULL, implied_value_id INTEGER NOT NULL, PRIMARY KEY (tag_id, value_id, implied_tag_id, implied_value_id));
CREATE TABLE IF NOT EXISTS query (text TEXT PRIMARY KEY);
CREATE TABLE IF NOT EXISTS setting (name TEXT PRIMARY KEY, value TEXT NOT NULL);",
        },
        Migration {
            version: 2,
            sql: "CREATE INDEX IF NOT EXISTS idx_tag_name ON tag(name);
CREATE INDEX IF NOT EXISTS idx_file_fingerprint ON file(fingerprint);
CREATE INDEX IF NOT EXISTS idx_file_tag_file_id ON file_tag(file_id);
CREATE INDEX IF NOT EXISTS idx_file_tag_tag_id ON file_tag(tag_id);
CREATE INDEX IF NOT EXISTS idx_file_tag_value_id ON file_tag(value_id);",
        },
    ];
    assert(r@.map_values(|m: Migration| m.version) =~= migration_versions());
    r
}

/// The migrations still to run on a schema at version `current` (none
/// recorded counts as version 0): every migration of a later version, in
/// ascending order.
pub fn pending(current: Option<u32>) -> (r: Vec<Migration>)
    ensures
        ({
            let c = match current {
                Some(v) => v,
                None => 0u32,
            };
            r@.map_values(|m: Migration| m.version) == migration_versions().filter(
                |v: u32| v > c,
            )
        }),
{
    let c = match current {
        Some(v) => v,
        None => 0,
    };
    let all = migrations();
    let ghost vs = migration_versions();
    let mut r: Vec<Migration> = Vec::new();
    let mut k: usize = 0;
    proof {
        reveal(Seq::filter);
        assert(vs.subrange(0, 0).filter(|v: u32| v > c) =~= Seq::<u32>::empty());
    }
    let n = all.len();
    while k < n
        invariant
            k <= n,
            n == all@.len(),
            all@.map_values(|m: Migration| m.version) == vs,
            r@.map_values(|m: Migration| m.version) == vs.subrange(0, k as int).filter(
                |v: u32| v > c,
            ),
            vs == migration_versions(),
        decreases n - k,
    {
        let m = all[k];
        let ghost before = r@.map_values(|m: Migration| m.version);
        let ghost v = m.version;
        assert(v == vs[k as int]);
        if m.version > c {
            r.push(m);
            assert(r@.map_values(|m: Migration| m.version) =~= before.push(v));
        }
        proof {
            reveal(Seq::filter);
            assert(vs.subrange(0, k + 1).drop_last() =~= vs.subrange(0, k as int));
        }
        k = k + 1;
    }
    assert(vs.subrange(0, n as int) =~= vs);
    r
}

/// A schema version written as major, minor, patch and revision.
#[derive(Clone, Copy, Debug, PartialEq, Eq, Structural)]
pub struct SchemaVersion {
    pub major: u32,
    pub minor: u32,
    pub patch: u32,
    pub revision: u32,
}

impl SchemaVersion {
    /// The version with the given parts.
    pub fn from_tuple(major: u32, minor: u32, patch: u32, revision: u32) -> (r: Self)
        ensures
            r == (SchemaVersion { major, minor, patch, revision }),
    {
        Self { major, minor, patch, revision }
    }

    /// The version as `major.minor.patch-revision`.
    pub fn to_text(&self) -> (r: String)
        ensures
            r@ == crate::text::decimal(self.major as nat) + seq!['.'] + crate::text::decimal(
                self.minor as nat,
            ) + seq!['.'] + crate::text::decimal(self.patch as nat) + seq!['-']
                + crate::text::decimal(self.revision as nat),
    {
        let mut r = String::new();
        push_decimal(&mut r, self.major as usize);
        crate::text::push_char(&mut r, '.');
        push_decimal(&mut r, self.minor as usize);
        crate::text::push_char(&mut r, '.');
        push_decimal(&mut r, self.patch as usize);
        crate::text::push_char(&mut r, '-');
        push_decimal(&mut r, self.revision as usize);
        r
    }
}

} // verus!
