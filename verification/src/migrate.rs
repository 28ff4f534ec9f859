//! Schema migration planning: version detection from column names, the
//! ordered migration steps between versions, and the statements each step
//! issues, stated exactly.

use vstd::prelude::*;
use vstd::string::StringExecFns;
use crate::text::{chars_vec, contains_sub, find_sub};

verus! {

/// Detected schema version based on column introspection.
#[derive(Debug, Clone, Copy, PartialEq, Eq, Structural)]
pub enum SchemaVersion {
    /// Base schema: fs_inode, fs_dentry, fs_data, fs_symlink, fs_config,
    /// kv_store, tool_calls.
    V0_0,
    /// Added nlink column to fs_inode.
    V0_2,
    /// Added atime_nsec, mtime_nsec, ctime_nsec, rdev columns to fs_inode.
    V0_4,
}

impl SchemaVersion {
    /// The version as displayed.
    pub open spec fn spec_str(self) -> Seq<char> {
        match self {
            SchemaVersion::V0_0 => "0.0"@,
            SchemaVersion::V0_2 => "0.2"@,
            SchemaVersion::V0_4 => "0.4"@,
        }
    }

    /// The version as displayed.
    pub fn as_str(&self) -> (r: &str)
        ensures
            r@ == self.spec_str(),
    {
        match self {
            SchemaVersion::V0_0 => "0.0",
            SchemaVersion::V0_2 => "0.2",
            SchemaVersion::V0_4 => "0.4",
        }
    }
}

/// The schema version migrations currently target.
pub fn current_schema_version() -> (r: &'static str)
    ensures
        r@ == SchemaVersion::V0_4.spec_str(),
{
    "0.4"
}

/// Whether the column list carries a column of the given name.
pub open spec fn has_column(cols: Seq<String>, name: Seq<char>) -> bool {
    exists|i: int| 0 <= i < cols.len() && (#[trigger] cols[i])@ == name
}

/// Decide whether the column list carries a column of the given name.
fn contains_column(columns: &Vec<String>, name: &String) -> (r: bool)
    ensures
        r == has_column(columns@, name@),
{
    let n = columns.len();
    let mut i: usize = 0;
    while i < n
        invariant
            n == columns@.len(),
            i <= n,
            forall|t: int| 0 <= t < i ==> (#[trigger] columns@[t])@ != name@,
        decreases n - i,
    {
        if columns[i] == *name {
            return true;
        }
        i = i + 1;
    }
    false
}

/// The version the fs_inode columns denote: every nanosecond-timestamp
/// column plus rdev means the latest; an nlink column alone means the
/// middle version; anything else is the base schema.
pub open spec fn spec_detect(cols: Seq<String>) -> SchemaVersion {
    if has_column(cols, "atime_nsec"@) && has_column(cols, "mtime_nsec"@) && has_column(
        cols,
        "ctime_nsec"@,
    ) && has_column(cols, "rdev"@) {
        SchemaVersion::V0_4
    } else if has_column(cols, "nlink"@) {
        SchemaVersion::V0_2
    } else {
        SchemaVersion::V0_0
    }
}

/// Detect the current schema version from the fs_inode column names.
pub fn detect_schema_version(columns: &Vec<String>) -> (r: SchemaVersion)
    ensures
        r == spec_detect(columns@),
{
    let has_nlink = contains_column(columns, &"nlink".to_owned());
    let has_atime_nsec = contains_column(columns, &"atime_nsec".to_owned());
    let has_mtime_nsec = contains_column(columns, &"mtime_nsec".to_owned());
    let has_ctime_nsec = contains_column(columns, &"ctime_nsec".to_owned());
    let has_rdev = contains_column(columns, &"rdev".to_owned());
    if has_atime_nsec && has_mtime_nsec && has_ctime_nsec && has_rdev {
        return SchemaVersion::V0_4;
    }
    if has_nlink {
        return SchemaVersion::V0_2;
    }
    SchemaVersion::V0_0
}

/// One migration step between adjacent schema versions.
#[derive(Debug, Clone, Copy, PartialEq, Eq, Structural)]
pub enum MigrationStep {
    /// The step to the middle version: add the nlink column.
    AddNlink,
    /// The step to the latest version: add the nanosecond-timestamp
    /// columns and rdev.
    AddTimestampsAndRdev,
}

/// The ordered steps from a version up to the latest.
pub open spec fn spec_migration_steps(from: SchemaVersion) -> Seq<MigrationStep> {
    match from {
        SchemaVersion::V0_0 => seq![
            MigrationStep::AddNlink,
            MigrationStep::AddTimestampsAndRdev,
        ],
        SchemaVersion::V0_2 => seq![MigrationStep::AddTimestampsAndRdev],
        SchemaVersion::V0_4 => Seq::empty(),
    }
}

/// The ordered steps from a version up to the latest.
pub fn migration_steps(from: SchemaVersion) -> (r: Vec<MigrationStep>)
    ensures
        r@ == spec_migration_steps(from),
{
    match from {
        SchemaVersion::V0_0 => {
            let r = vec![MigrationStep::AddNlink, MigrationStep::AddTimestampsAndRdev];
            proof {
                assert(r@ =~= spec_migration_steps(SchemaVersion::V0_0));
            }
            r
        },
        SchemaVersion::V0_2 => {
            let r = vec![MigrationStep::AddTimestampsAndRdev];
            proof {
                assert(r@ =~= spec_migration_steps(SchemaVersion::V0_2));
            }
            r
        },
        SchemaVersion::V0_4 => {
            let r = Vec::new();
            proof {
                assert(r@ =~= spec_migration_steps(SchemaVersion::V0_4));
            }
            r
        },
    }
}

/// The idempotent column additions one step issues, in order.
pub open spec fn spec_step_statements(step: MigrationStep) -> Seq<Seq<char>> {
    match step {
        MigrationStep::AddNlink => seq![
            "ALTER TABLE fs_inode ADD COLUMN nlink INTEGER NOT NULL DEFAULT 0"@,
        ],
        MigrationStep::AddTimestampsAndRdev => seq![
            "ALTER TABLE fs_inode ADD COLUMN atime_nsec INTEGER NOT NULL DEFAULT 0"@,
            "ALTER TABLE fs_inode ADD COLUMN mtime_nsec INTEGER NOT NULL DEFAULT 0"@,
            "ALTER TABLE fs_inode ADD COLUMN ctime_nsec INTEGER NOT NULL DEFAULT 0"@,
            "ALTER TABLE fs_inode ADD COLUMN rdev INTEGER NOT NULL DEFAULT 0"@,
        ],
    }
}

/// The idempotent column additions one step issues, in order.
pub fn step_statements(step: MigrationStep) -> (r: Vec<String>)
    ensures
        r.deep_view() == spec_step_statements(step),
{
    match step {
        MigrationStep::AddNlink => {
            let r = vec![
                "ALTER TABLE fs_inode ADD COLUMN nlink INTEGER NOT NULL DEFAULT 0".to_owned(),
            ];
            proof {
                assert(r.deep_view() =~= spec_step_statements(MigrationStep::AddNlink));
            }
            r
        },
        MigrationStep::AddTimestampsAndRdev => {
            let r = vec![
                "ALTER TABLE fs_inode ADD COLUMN atime_nsec INTEGER NOT NULL DEFAULT 0".to_owned(),
                "ALTER TABLE fs_inode ADD COLUMN mtime_nsec INTEGER NOT NULL DEFAULT 0".to_owned(),
                "ALTER TABLE fs_inode ADD COLUMN ctime_nsec INTEGER NOT NULL DEFAULT 0".to_owned(),
                "ALTER TABLE fs_inode ADD COLUMN rdev INTEGER NOT NULL DEFAULT 0".to_owned(),
            ];
            proof {
                assert(r.deep_view() =~= spec_step_statements(MigrationStep::AddTimestampsAndRdev));
            }
            r
        },
    }
}

/// Every statement the migration from a version issues, in order: the
/// statements of each pending step, first step first.
pub open spec fn spec_migration_statements(from: SchemaVersion) -> Seq<Seq<char>> {
    match from {
        SchemaVersion::V0_0 => spec_step_statements(MigrationStep::AddNlink)
            + spec_step_statements(MigrationStep::AddTimestampsAndRdev),
        SchemaVersion::V0_2 => spec_step_statements(MigrationStep::AddTimestampsAndRdev),
        SchemaVersion::V0_4 => Seq::empty(),
    }
}

/// Every statement the migration from a version issues, in order.
pub fn migration_statements(from: SchemaVersion) -> (r: Vec<String>)
    ensures
        r.deep_view() == spec_migration_statements(from),
{
    let steps = migration_steps(from);
    let mut r: Vec<String> = Vec::new();
    let mut k: usize = 0;
    let ghost target = spec_migration_statements(from);
    proof {
        lemma_concat_steps_agrees(from);
        assert(steps@.subrange(0, 0) =~= Seq::<MigrationStep>::empty());
        assert(r.deep_view() =~= concat_steps(steps@.subrange(0, 0)));
    }
    while k < steps.len()
        invariant
            k <= steps@.len(),
            steps@ == spec_migration_steps(from),
            target == concat_steps(spec_migration_steps(from)),
            r.deep_view() == concat_steps(steps@.subrange(0, k as int)),
        decreases steps@.len() - k,
    {
        let stmts = step_statements(steps[k]);
        let ghost r_before = r.deep_view();
        let mut t: usize = 0;
        while t < stmts.len()
            invariant
                t <= stmts@.len(),
                stmts.deep_view() == spec_step_statements(steps@[k as int]),
                stmts.deep_view().len() == stmts@.len(),
                r.deep_view() == r_before + stmts.deep_view().subrange(0, t as int),
            decreases stmts@.len() - t,
        {
            let s = stmts[t].clone();
            proof {
                assert(s@ == stmts.deep_view()[t as int]);
            }
            let ghost dv_before = r.deep_view();
            let ghost len_before = r@.len();
            r.push(s);
            proof {
                assert(forall|q: int| 0 <= q < len_before ==> #[trigger] r.deep_view()[q] == dv_before[q]);
                assert(r.deep_view() =~= dv_before.push(s@));
                assert(dv_before.push(s@) =~= r_before + stmts.deep_view().subrange(
                    0,
                    t as int + 1,
                ));
            }
            t = t + 1;
        }
        proof {
            assert(stmts.deep_view().subrange(0, stmts@.len() as int) =~= stmts.deep_view());
            lemma_concat_steps_push(steps@.subrange(0, k as int), steps@[k as int]);
            assert(steps@.subrange(0, k as int).push(steps@[k as int]) =~= steps@.subrange(
                0,
                k as int + 1,
            ));
        }
        k = k + 1;
    }
    proof {
        assert(steps@.subrange(0, steps@.len() as int) =~= steps@);
    }
    r
}

/// The statements of a step sequence, concatenated in order.
pub open spec fn concat_steps(steps: Seq<MigrationStep>) -> Seq<Seq<char>>
    decreases steps.len(),
{
    if steps.len() == 0 {
        Seq::empty()
    } else {
        concat_steps(steps.drop_last()) + spec_step_statements(steps.last())
    }
}

/// The concatenation of a version's pending steps is exactly the
/// version's statement list.
proof fn lemma_concat_steps_agrees(from: SchemaVersion)
    ensures
        concat_steps(spec_migration_steps(from)) == spec_migration_statements(from),
{
    let one = seq![MigrationStep::AddTimestampsAndRdev];
    let two = seq![MigrationStep::AddNlink, MigrationStep::AddTimestampsAndRdev];
    assert(concat_steps(Seq::<MigrationStep>::empty()) =~= Seq::<Seq<char>>::empty());
    assert(one.drop_last() =~= Seq::<MigrationStep>::empty());
    assert(concat_steps(one) =~= spec_step_statements(MigrationStep::AddTimestampsAndRdev));
    assert(two.drop_last() =~= seq![MigrationStep::AddNlink]);
    assert(seq![MigrationStep::AddNlink].drop_last() =~= Seq::<MigrationStep>::empty());
    assert(concat_steps(seq![MigrationStep::AddNlink]) =~= spec_step_statements(
        MigrationStep::AddNlink,
    ));
    assert(concat_steps(two) =~= spec_step_statements(MigrationStep::AddNlink)
        + spec_step_statements(MigrationStep::AddTimestampsAndRdev));
    match from {
        SchemaVersion::V0_0 => {
            assert(spec_migration_steps(from) == two);
        },
        SchemaVersion::V0_2 => {
            assert(spec_migration_steps(from) == one);
        },
        SchemaVersion::V0_4 => {
            assert(concat_steps(Seq::<MigrationStep>::empty()) =~= Seq::<Seq<char>>::empty());
        },
    }
}

/// Appending one step appends its statements.
proof fn lemma_concat_steps_push(steps: Seq<MigrationStep>, x: MigrationStep)
    ensures
        concat_steps(steps.push(x)) == concat_steps(steps) + spec_step_statements(x),
{
    assert(steps.push(x).drop_last() =~= steps);
    assert(steps.push(x).last() == x);
}

/// The printable descriptions of the migrations pending from a version.
pub open spec fn spec_pending_lines(from: SchemaVersion) -> Seq<Seq<char>> {
    match from {
        SchemaVersion::V0_0 => seq![
            "  - v0.0 -> v0.2: Add nlink column to fs_inode"@,
            "  - v0.2 -> v0.4: Add atime_nsec, mtime_nsec, ctime_nsec, rdev columns to fs_inode"@,
        ],
        SchemaVersion::V0_2 => seq![
            "  - v0.2 -> v0.4: Add atime_nsec, mtime_nsec, ctime_nsec, rdev columns to fs_inode"@,
        ],
        SchemaVersion::V0_4 => Seq::empty(),
    }
}

/// The printable descriptions of the migrations pending from a version.
pub fn pending_migration_lines(from: SchemaVersion) -> (r: Vec<String>)
    ensures
        r.deep_view() == spec_pending_lines(from),
{
    match from {
        SchemaVersion::V0_0 => {
            let r = vec![
                "  - v0.0 -> v0.2: Add nlink column to fs_inode".to_owned(),
                "  - v0.2 -> v0.4: Add atime_nsec, mtime_nsec, ctime_nsec, rdev columns to fs_inode"
                    .to_owned(),
            ];
            proof {
                assert(r.deep_view() =~= spec_pending_lines(SchemaVersion::V0_0));
            }
            r
        },
        SchemaVersion::V0_2 => {
            let r = vec![
                "  - v0.2 -> v0.4: Add atime_nsec, mtime_nsec, ctime_nsec, rdev columns to fs_inode"
                    .to_owned(),
            ];
            proof {
                assert(r.deep_view() =~= spec_pending_lines(SchemaVersion::V0_2));
            }
            r
        },
        SchemaVersion::V0_4 => {
            let r = Vec::new();
            proof {
                assert(r.deep_view() =~= spec_pending_lines(SchemaVersion::V0_4));
            }
            r
        },
    }
}

/// Whether a database error message reports a duplicate column — the
/// signal that an idempotent column addition has already been applied.
pub fn is_duplicate_column_error(message: &str) -> (r: bool)
    ensures
        r == contains_sub(message@, "duplicate column"@),
{
    let hay = chars_vec(message);
    let needle = chars_vec("duplicate column");
    find_sub(&hay, &needle)
}

} // verus!
