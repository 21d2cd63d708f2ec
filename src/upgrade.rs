//! Bringing schemas of the legacy versioned layout up to date.

use vstd::prelude::*;

use crate::migrations::SchemaVersion;

verus! {

/// Whether version `a` comes before version `b`: parts compared in order.
pub open spec fn before(a: SchemaVersion, b: SchemaVersion) -> bool {
    a.major < b.major || (a.major == b.major && (a.minor < b.minor || (a.minor == b.minor && (
    a.patch < b.patch || (a.patch == b.patch && a.revision < b.revision)))))
}

pub open spec fn version(major: u32, minor: u32, patch: u32, revision: u32) -> SchemaVersion {
    SchemaVersion { major, minor, patch, revision }
}

/// The latest legacy schema version.
pub open spec fn latest() -> SchemaVersion {
    version(0, 7, 0, 1)
}

impl SchemaVersion {
    /// Whether this version comes before `other`.
    pub fn is_before(&self, other: &SchemaVersion) -> (r: bool)
        ensures
            r == before(*self, *other),
    {
        self.major < other.major || (self.major == other.major && (self.minor < other.minor || (
        self.minor == other.minor && (self.patch < other.patch || (self.patch == other.patch
            && self.revision < other.revision)))))
    }

    /// The latest legacy schema version, `0.7.0-1`.
    pub fn latest() -> (r: SchemaVersion)
        ensures
            r == latest(),
    {
        SchemaVersion::from_tuple(0, 7, 0, 1)
    }
}

/// A step that brings a legacy schema up to date.
#[derive(Clone, Copy, Debug, PartialEq, Eq, Structural)]
pub enum UpgradeStep {
    /// Create every table: schemas before 0.5.0 recorded no version.
    CreateSchema,
    /// Rename the fingerprint algorithm setting (before 0.5.0).
    RenameFingerprintAlgorithmSetting,
    /// Recreate the implication table with value columns (before 0.6.0).
    RecreateImplicationTable,
    /// Split out the symbolic link fingerprint algorithms (before 0.7.0).
    UpdateFingerprintAlgorithms,
    /// Recreate the version table with a revision column (before 0.7.0-1).
    RecreateVersionTable,
    /// Record the latest version.
    UpdateSchemaVersion,
}

pub open spec fn when(c: bool, s: UpgradeStep) -> Seq<UpgradeStep> {
    if c {
        seq![s]
    } else {
        Seq::empty()
    }
}

/// The steps for a schema at `current` (none when no version is recorded):
/// nothing when it is the latest, else each step introduced after it, in
/// order, then the recording of the latest version.
pub open spec fn upgrade_plan(current: Option<SchemaVersion>) -> Seq<UpgradeStep> {
    if current == Some(latest()) {
        Seq::empty()
    } else {
        let c = match current {
            Some(v) => v,
            None => version(0, 0, 0, 0),
        };
        when(current is None, UpgradeStep::CreateSchema) + when(
            before(c, version(0, 5, 0, 0)),
            UpgradeStep::RenameFingerprintAlgorithmSetting,
        ) + when(before(c, version(0, 6, 0, 0)), UpgradeStep::RecreateImplicationTable) + when(
            before(c, version(0, 7, 0, 0)),
            UpgradeStep::UpdateFingerprintAlgorithms,
        ) + when(before(c, version(0, 7, 0, 1)), UpgradeStep::RecreateVersionTable) + seq![
            UpgradeStep::UpdateSchemaVersion,
        ]
    }
}

fn push_when(steps: &mut Vec<UpgradeStep>, c: bool, s: UpgradeStep)
    ensures
        final(steps)@ == old(steps)@ + when(c, s),
{
    if c {
        steps.push(s);
        assert(final(steps)@ =~= old(steps)@ + seq![s]);
    } else {
        assert(old(steps)@ + Seq::<UpgradeStep>::empty() =~= old(steps)@);
    }
}

/// The steps that bring a legacy schema at `current` up to date.
pub fn upgrade(current: Option<SchemaVersion>) -> (r: Vec<UpgradeStep>)
    ensures
        r@ == upgrade_plan(current),
{
    let latest = SchemaVersion::latest();
    let mut steps: Vec<UpgradeStep> = Vec::new();
    if let Some(v) = current {
        if v == latest {
            assert(steps@ =~= upgrade_plan(current));
            return steps;
        }
    }
    let c = match current {
        Some(v) => v,
        None => SchemaVersion::from_tuple(0, 0, 0, 0),
    };
    push_when(&mut steps, current.is_none(), UpgradeStep::CreateSchema);
    push_when(
        &mut steps,
        c.is_before(&SchemaVersion::from_tuple(0, 5, 0, 0)),
        UpgradeStep::RenameFingerprintAlgorithmSetting,
    );
    push_when(
        &mut steps,
        c.is_before(&SchemaVersion::from_tuple(0, 6, 0, 0)),
        UpgradeStep::RecreateImplicationTable,
    );
    push_when(
        &mut steps,
        c.is_before(&SchemaVersion::from_tuple(0, 7, 0, 0)),
        UpgradeStep::UpdateFingerprintAlgorithms,
    );
    push_when(&mut steps, c.is_before(&latest), UpgradeStep::RecreateVersionTable);
    steps.push(UpgradeStep::UpdateSchemaVersion);
    assert(steps@ =~= upgrade_plan(current));
    steps
}

} // verus!
