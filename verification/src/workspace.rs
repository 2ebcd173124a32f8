//! The workspace facade's decisions and payloads: root validation, the save
//! plan, the open result, backup packaging, restore, and the legacy project
//! folder operations. The caller only reads files, tests existence and
//! executes the returned plans.

use vstd::prelude::*;
use crate::magic::{is_sqlite, is_sqlite_bytes, sqlite_magic};
use crate::b64::{b64_of, b64_encode, b64_decode};
use crate::paths::{path_join, join_path, backup_name_of, timestamp_backup_name};
use crate::fsplan::{
    FsStep, FsImage, atomic_write_plan, atomic_write_model, fs_apply_steps,
    lemma_atomic_write_applies,
};
use crate::archive::{
    zip_entry, zip_readable, backup_db_entry, build_backup_archive, extract_db_from_backup,
    ExtractFault,
};
use crate::docs::{render_backup_metadata, metadata_json_of};
use crate::text::push_chars;
use vstd::string::StringSliceAdditionalSpecFns;
use vstd::string::StrSliceExecFns;

verus! {

/// Why a workspace operation was refused before any work was done.
#[derive(Debug)]
pub enum WorkspaceFault {
    /// The root path does not exist.
    RootMissing,
    /// The root path is not a directory.
    RootNotDir,
    /// The workspace database file is absent.
    DbMissing,
    /// The database bytes fail the magic check on open.
    DbNotSqlite,
    /// The database text is not valid base64.
    BadBase64,
    /// The decoded bytes fail the magic check on save.
    NotSqliteBytes,
    /// A backup name carries a slash, a backslash or two consecutive dots.
    InvalidBackupName,
    /// The named backup archive is not in the backups directory.
    BackupNotFound,
}

/// The message each refusal reports.
pub open spec fn fault_message_of(f: WorkspaceFault) -> Seq<char> {
    match f {
        WorkspaceFault::RootMissing => "Workspace folder does not exist"@,
        WorkspaceFault::RootNotDir => "Workspace path is not a folder"@,
        WorkspaceFault::DbMissing => "Missing database.sqlite in workspace"@,
        WorkspaceFault::DbNotSqlite => "database.sqlite is not a valid SQLite database"@,
        WorkspaceFault::BadBase64 => "Invalid db base64"@,
        WorkspaceFault::NotSqliteBytes => "Refusing to write: database.sqlite is not valid SQLite bytes"@,
        WorkspaceFault::InvalidBackupName => "Invalid backup name"@,
        WorkspaceFault::BackupNotFound => "Backup file not found"@,
    }
}

impl WorkspaceFault {
    /// Renders the refusal's message.
    pub fn message(&self) -> (r: String)
        ensures
            r@ == fault_message_of(*self),
    {
        match self {
            WorkspaceFault::RootMissing => String::from_str("Workspace folder does not exist"),
            WorkspaceFault::RootNotDir => String::from_str("Workspace path is not a folder"),
            WorkspaceFault::DbMissing => String::from_str("Missing database.sqlite in workspace"),
            WorkspaceFault::DbNotSqlite => String::from_str(
                "database.sqlite is not a valid SQLite database",
            ),
            WorkspaceFault::BadBase64 => String::from_str("Invalid db base64"),
            WorkspaceFault::NotSqliteBytes => String::from_str(
                "Refusing to write: database.sqlite is not valid SQLite bytes",
            ),
            WorkspaceFault::InvalidBackupName => String::from_str("Invalid backup name"),
            WorkspaceFault::BackupNotFound => String::from_str("Backup file not found"),
        }
    }
}

/// Accepts a workspace root that exists and is a directory; names what is
/// wrong otherwise.
pub fn root_check(root_exists: bool, root_is_dir: bool) -> (r: Result<(), WorkspaceFault>)
    ensures
        r is Ok <==> root_exists && root_is_dir,
        r matches Err(f) && f is RootMissing <==> !root_exists,
        r matches Err(f) && f is RootNotDir <==> root_exists && !root_is_dir,
{
    if !root_exists {
        Err(WorkspaceFault::RootMissing)
    } else if !root_is_dir {
        Err(WorkspaceFault::RootNotDir)
    } else {
        Ok(())
    }
}

/// Copies a byte vector.
pub fn copy_bytes(v: &Vec<u8>) -> (r: Vec<u8>)
    ensures
        r@ == v@,
{
    let mut out: Vec<u8> = Vec::new();
    let n = v.len();
    let mut i: usize = 0;
    while i < n
        invariant
            i <= n,
            n == v@.len(),
            out@ == v@.take(i as int),
        decreases n - i,
    {
        out.push(v[i]);
        assert(out@ =~= v@.take(i + 1));
        i += 1;
    }
    assert(out@ =~= v@);
    out
}

/// The checked payload and plan of a save: the decoded database bytes and
/// the atomic write that lands them on the workspace database path.
#[derive(Debug)]
pub struct SavePlan {
    /// The workspace database path.
    pub db_path: String,
    /// The decoded bytes.
    pub bytes: Vec<u8>,
    /// The atomic write to execute in order.
    pub steps: Vec<FsStep>,
}

/// Validates and plans a save: the base64 text must decode, the bytes must
/// carry the magic header, and the plan writes them atomically to the
/// workspace database path.
pub fn save_plan(root: &str, db_b64: &str) -> (r: Result<SavePlan, WorkspaceFault>)
    ensures
        r matches Ok(p) ==> db_b64@ == b64_of(p.bytes@) && is_sqlite(p.bytes@) && p.db_path@
            == path_join(root@, "database.sqlite"@) && p.steps@.len() == 2 && p.steps@[0]@
            == atomic_write_model(p.db_path@, p.bytes@)[0] && p.steps@[1]@ == atomic_write_model(
            p.db_path@,
            p.bytes@,
        )[1],
        r matches Err(f) ==> f is BadBase64 || f is NotSqliteBytes,
        forall|bs: Seq<u8>|
            db_b64@ == b64_of(bs) ==> if is_sqlite(bs) {
                r is Ok
            } else {
                r matches Err(f) && f is NotSqliteBytes
            },
        r matches Err(f) && f is BadBase64 ==> forall|bs: Seq<u8>| db_b64@ != b64_of(bs),
{
    let bytes = match b64_decode(db_b64) {
        Ok(b) => b,
        Err(_) => {
            return Err(WorkspaceFault::BadBase64);
        },
    };
    if !is_sqlite_bytes(&bytes) {
        return Err(WorkspaceFault::NotSqliteBytes);
    }
    let db_path = join_path(root, "database.sqlite");
    let steps = atomic_write_plan(db_path.as_str(), copy_bytes(&bytes));
    Ok(SavePlan { db_path, bytes, steps })
}

/// What opening a workspace returns to the caller.
#[derive(Debug)]
pub struct OpenWorkspaceResult {
    /// The manifest text as found on disk (an empty object when absent).
    pub workspace_json: String,
    /// The database bytes, base64.
    pub db_base64: String,
    /// The manifest path.
    pub workspace_json_path: String,
    /// The database path.
    pub db_path: String,
    /// The backups directory.
    pub backups_dir: String,
}

/// Assembles the open result from the manifest text and the database bytes
/// read from disk; bytes without the magic header are refused.
pub fn open_workspace_result(root: &str, manifest_text: String, db_bytes: &Vec<u8>) -> (r: Result<
    OpenWorkspaceResult,
    WorkspaceFault,
>)
    ensures
        r is Ok <==> is_sqlite(db_bytes@),
        r matches Err(f) ==> f is DbNotSqlite,
        r matches Ok(o) ==> o.workspace_json@ == manifest_text@ && o.db_base64@ == b64_of(
            db_bytes@,
        ) && o.workspace_json_path@ == path_join(root@, "workspace.json"@) && o.db_path@
            == path_join(root@, "database.sqlite"@) && o.backups_dir@ == path_join(
            root@,
            "backups"@,
        ),
{
    if !is_sqlite_bytes(db_bytes) {
        return Err(WorkspaceFault::DbNotSqlite);
    }
    Ok(
        OpenWorkspaceResult {
            workspace_json: manifest_text,
            db_base64: b64_encode(db_bytes),
            workspace_json_path: join_path(root, "workspace.json"),
            db_path: join_path(root, "database.sqlite"),
            backups_dir: join_path(root, "backups"),
        },
    )
}

/// Why a backup could not be packed.
#[derive(Debug)]
pub enum BackupFault {
    /// The database bytes fail the magic check.
    NotSqlite,
    /// The archive container could not be produced.
    Archive,
}

/// Packs a backup: the archive name from the wall clock, and the container
/// holding the database, the manifest text and the metadata descriptor.
/// A magic-valid database of ordinary size always packs.
pub fn create_backup_bundle(
    db_bytes: &Vec<u8>,
    manifest_text: &str,
    now_utc_ms: i64,
    y: i32,
    mo: u32,
    d: u32,
    h: u32,
    mi: u32,
    s: u32,
    prefix: &str,
) -> (r: Result<(String, Vec<u8>), BackupFault>)
    ensures
        r matches Err(f) && f is NotSqlite <==> !is_sqlite(db_bytes@),
        r matches Ok(p) ==> p.0@ == backup_name_of(
            prefix@,
            y as int,
            mo as int,
            d as int,
            h as int,
            mi as int,
            s as int,
            "rentikpro"@,
        ) && zip_entry(p.1@, "database.sqlite"@) == Some(db_bytes@) && zip_entry(
            p.1@,
            "workspace.json"@,
        ) == Some(manifest_text.spec_bytes()) && zip_entry(p.1@, "metadata.json"@) == Some(
            vstd::utf8::encode_utf8(metadata_json_of(now_utc_ms as int)),
        ) && zip_readable(p.1@),
        db_bytes@.len() <= 2147483647 && manifest_text.spec_bytes().len() <= 2147483647 ==> (
        r is Ok <==> is_sqlite(db_bytes@)),
{
    if !is_sqlite_bytes(db_bytes) {
        return Err(BackupFault::NotSqlite);
    }
    let name = timestamp_backup_name(prefix, y, mo, d, h, mi, s, "rentikpro");
    let manifest_bytes = manifest_text.as_bytes_vec();
    let meta = render_backup_metadata(now_utc_ms);
    let meta_bytes = meta.as_str().as_bytes_vec();
    proof {
        reveal_strlit("{\n  \"app\": \"RentikPro\",\n  \"createdAt\": ");
        reveal_strlit(
            ",\n  \"dbFile\": \"database.sqlite\",\n  \"format\": \"rentikpro-workspace-backup\"\n}",
        );
        crate::text::lemma_dec_of_i64_len(now_utc_ms as int);
        assert(metadata_json_of(now_utc_ms as int).len() <= 200);
        crate::text::lemma_encode_utf8_len(metadata_json_of(now_utc_ms as int));
        assert(meta_bytes@.len() <= 800);
    }
    match build_backup_archive(db_bytes, &manifest_bytes, &meta_bytes) {
        Ok(v) => Ok((name, v)),
        Err(_) => Err(BackupFault::Archive),
    }
}

/// The checked payload and plan of a restore: the extracted bytes, the
/// atomic write landing them on the workspace database path, and their
/// base64 for the caller.
#[derive(Debug)]
pub struct RestorePlan {
    /// The workspace database path.
    pub db_path: String,
    /// The extracted database bytes.
    pub bytes: Vec<u8>,
    /// The atomic write to execute in order.
    pub steps: Vec<FsStep>,
    /// The extracted bytes, base64.
    pub db_base64: String,
}

/// Extracts the database from an archive's bytes and plans the atomic write
/// onto the workspace database path. On a readable archive the plan comes
/// back exactly when the resolved database entry exists and carries the
/// magic header.
pub fn restore_apply(root: &str, archive: &Vec<u8>) -> (r: Result<RestorePlan, ExtractFault>)
    ensures
        r matches Ok(p) ==> is_sqlite(p.bytes@) && backup_db_entry(archive@) == Some(p.bytes@)
            && p.db_path@ == path_join(root@, "database.sqlite"@) && p.steps@.len() == 2
            && p.steps@[0]@ == atomic_write_model(p.db_path@, p.bytes@)[0] && p.steps@[1]@
            == atomic_write_model(p.db_path@, p.bytes@)[1] && p.db_base64@ == b64_of(p.bytes@),
        r matches Err(f) && f is MissingDb ==> backup_db_entry(archive@) is None,
        zip_readable(archive@) ==> (r is Ok <==> (backup_db_entry(archive@) matches Some(b)
            && is_sqlite(b))),
{
    let bytes = match extract_db_from_backup(archive) {
        Ok(b) => b,
        Err(f) => {
            return Err(f);
        },
    };
    let db_path = join_path(root, "database.sqlite");
    let steps = atomic_write_plan(db_path.as_str(), copy_bytes(&bytes));
    let db_base64 = b64_encode(&bytes);
    Ok(RestorePlan { db_path, bytes, steps, db_base64 })
}

/// After a successful restore the database file holds exactly the extracted
/// bytes: they carry the magic header and are not empty.
pub proof fn lemma_restore_safety(fs: FsImage, path: Seq<char>, bytes: Seq<u8>)
    requires
        is_sqlite(bytes),
    ensures
        ({
            let m = fs_apply_steps(fs, atomic_write_model(path, bytes));
            &&& m.contains_key(path)
            &&& m[path] == bytes
            &&& m[path].len() > 0
            &&& m[path].subrange(0, 16) == sqlite_magic()
        }),
{
    lemma_atomic_write_applies(fs, path, bytes);
}

/// What validating a legacy project folder reports.
#[derive(Debug)]
pub struct ValidateProjectResult {
    /// Both required files are present under a directory root.
    pub ok: bool,
    /// What is missing or wrong, when something is.
    pub error: Option<String>,
    /// The manifest path.
    pub project_json_path: String,
    /// The database path.
    pub db_path: String,
}

/// The validation message for a legacy project folder.
pub open spec fn validate_error_of(
    root_exists: bool,
    root_is_dir: bool,
    pj_exists: bool,
    db_exists: bool,
) -> Option<Seq<char>> {
    if !root_exists {
        Some("Folder does not exist"@)
    } else if !root_is_dir {
        Some("Path is not a folder"@)
    } else if pj_exists && db_exists {
        None
    } else {
        Some(
            "Missing required files: "@ + (if !pj_exists {
                "project.json "@
            } else {
                Seq::empty()
            }) + (if !db_exists {
                "db.sqlite"@
            } else {
                Seq::empty()
            }),
        )
    }
}

/// Assembles the validation result for a legacy project folder from the
/// existence tests the caller ran.
pub fn validate_project_result(
    root: &str,
    root_exists: bool,
    root_is_dir: bool,
    pj_exists: bool,
    db_exists: bool,
) -> (r: ValidateProjectResult)
    ensures
        r.ok <==> root_exists && root_is_dir && pj_exists && db_exists,
        r.project_json_path@ == path_join(root@, "project.json"@),
        r.db_path@ == path_join(root@, "db.sqlite"@),
        r.error is Some <==> !r.ok,
        r.error matches Some(m) ==> Some(m@) == validate_error_of(
            root_exists,
            root_is_dir,
            pj_exists,
            db_exists,
        ),
{
    let project_json_path = join_path(root, "project.json");
    let db_path = join_path(root, "db.sqlite");
    if !root_exists {
        return ValidateProjectResult {
            ok: false,
            error: Some(String::from_str("Folder does not exist")),
            project_json_path,
            db_path,
        };
    }
    if !root_is_dir {
        return ValidateProjectResult {
            ok: false,
            error: Some(String::from_str("Path is not a folder")),
            project_json_path,
            db_path,
        };
    }
    if pj_exists && db_exists {
        return ValidateProjectResult { ok: true, error: None, project_json_path, db_path };
    }
    let mut v: Vec<char> = Vec::new();
    push_chars(&mut v, "Missing required files: ");
    if !pj_exists {
        push_chars(&mut v, "project.json ");
    }
    if !db_exists {
        push_chars(&mut v, "db.sqlite");
    }
    proof {
        assert(v@ =~= validate_error_of(root_exists, root_is_dir, pj_exists, db_exists)->Some_0);
    }
    ValidateProjectResult {
        ok: false,
        error: Some(crate::text::chars_to_string(&v)),
        project_json_path,
        db_path,
    }
}

/// Why writing a legacy project folder was refused.
#[derive(Debug)]
pub enum WriteProjectFault {
    /// The root path is not a directory.
    NotDir,
    /// The manifest already exists and overwriting was not asked for.
    PjExists,
    /// The database already exists and overwriting was not asked for.
    DbExists,
    /// The database text is not valid base64.
    BadBase64,
}

/// What writing a legacy project folder puts on disk.
#[derive(Debug)]
pub struct WriteProjectEffects {
    /// The manifest path.
    pub pj_path: String,
    /// The manifest bytes.
    pub pj_bytes: Vec<u8>,
    /// The database path.
    pub db_path: String,
    /// The decoded database bytes.
    pub db_bytes: Vec<u8>,
}

/// Validates and plans the write of a legacy project folder: the root must
/// be a directory, the two files must not already exist unless overwriting,
/// and the database text must decode.
pub fn write_project_plan(
    root: &str,
    project_json: &str,
    db_b64: &str,
    overwrite: bool,
    root_is_dir: bool,
    pj_exists: bool,
    db_exists: bool,
) -> (r: Result<WriteProjectEffects, WriteProjectFault>)
    ensures
        r matches Err(f) && f is NotDir <==> !root_is_dir,
        r matches Err(f) && f is PjExists <==> root_is_dir && !overwrite && pj_exists,
        r matches Err(f) && f is DbExists <==> root_is_dir && !overwrite && !pj_exists && db_exists,
        r matches Ok(e) ==> e.pj_path@ == path_join(root@, "project.json"@) && e.pj_bytes@
            == project_json.spec_bytes() && e.db_path@ == path_join(root@, "db.sqlite"@) && db_b64@
            == b64_of(e.db_bytes@),
        forall|bs: Seq<u8>|
            db_b64@ == b64_of(bs) && root_is_dir && (overwrite || (!pj_exists && !db_exists))
                ==> r is Ok,
{
    if !root_is_dir {
        return Err(WriteProjectFault::NotDir);
    }
    if !overwrite {
        if pj_exists {
            return Err(WriteProjectFault::PjExists);
        }
        if db_exists {
            return Err(WriteProjectFault::DbExists);
        }
    }
    let db_bytes = match b64_decode(db_b64) {
        Ok(b) => b,
        Err(_) => {
            return Err(WriteProjectFault::BadBase64);
        },
    };
    Ok(
        WriteProjectEffects {
            pj_path: join_path(root, "project.json"),
            pj_bytes: project_json.as_bytes_vec(),
            db_path: join_path(root, "db.sqlite"),
            db_bytes,
        },
    )
}

} // verus!
