//! The workspace facade: saving, opening, packing and restoring backups, and
//! the legacy project-folder operations.

use rentik_sync::{
    FsStep, WorkspaceFault, root_check, save_plan, open_workspace_result, create_backup_bundle,
    BackupFault, restore_apply, ExtractFault, validate_project_result, write_project_plan,
    WriteProjectFault, b64_encode, b64_decode, tmp_path_for,
};
use std::io::Write;

fn db(extra: &[u8]) -> Vec<u8> {
    let mut v = b"SQLite format 3\0".to_vec();
    v.extend_from_slice(extra);
    v
}

#[test]
fn root_check_messages() {
    assert!(root_check(true, true).is_ok());
    let f = root_check(false, false).unwrap_err();
    assert!(matches!(f, WorkspaceFault::RootMissing));
    assert_eq!(f.message(), "Workspace folder does not exist");
    let f = root_check(true, false).unwrap_err();
    assert!(matches!(f, WorkspaceFault::RootNotDir));
    assert_eq!(f.message(), "Workspace path is not a folder");
    assert_eq!(WorkspaceFault::DbMissing.message(), "Missing database.sqlite in workspace");
    assert_eq!(WorkspaceFault::InvalidBackupName.message(), "Invalid backup name");
    assert_eq!(WorkspaceFault::BackupNotFound.message(), "Backup file not found");
}

#[test]
fn save_plan_is_atomic_write_of_decoded_bytes() {
    let bytes = db(b"to-save");
    let p = save_plan("/ws", &b64_encode(&bytes)).expect("valid payload");
    assert_eq!(p.db_path, "/ws/database.sqlite");
    assert_eq!(p.bytes, bytes);
    assert_eq!(p.steps.len(), 2);
    match &p.steps[0] {
        FsStep::WriteFile { path, bytes: b } => {
            assert_eq!(path, &tmp_path_for("/ws/database.sqlite"));
            assert_eq!(b, &bytes);
        },
        _ => panic!("first step must write the temporary sibling"),
    }
    match &p.steps[1] {
        FsStep::Rename { from, to } => {
            assert_eq!(from.as_str(), "/ws/database.sqlite.tmp");
            assert_eq!(to.as_str(), "/ws/database.sqlite");
        },
        _ => panic!("second step must rename onto the target"),
    }
}

#[test]
fn save_plan_refuses_bad_inputs() {
    let f = save_plan("/ws", "!!!not-base64").unwrap_err();
    assert!(matches!(f, WorkspaceFault::BadBase64));
    assert_eq!(f.message(), "Invalid db base64");
    let f = save_plan("/ws", &b64_encode(&b"hello".to_vec())).unwrap_err();
    assert!(matches!(f, WorkspaceFault::NotSqliteBytes));
    assert_eq!(f.message(), "Refusing to write: database.sqlite is not valid SQLite bytes");
}

#[test]
fn open_result_carries_paths_and_payload() {
    let bytes = db(b"open-me");
    let o = open_workspace_result("/ws", "{}".to_string(), &bytes).expect("valid database");
    assert_eq!(o.workspace_json, "{}");
    assert_eq!(b64_decode(&o.db_base64).unwrap(), bytes);
    assert_eq!(o.workspace_json_path, "/ws/workspace.json");
    assert_eq!(o.db_path, "/ws/database.sqlite");
    assert_eq!(o.backups_dir, "/ws/backups");
    let f = open_workspace_result("/ws", "{}".to_string(), &b"junk".to_vec()).unwrap_err();
    assert!(matches!(f, WorkspaceFault::DbNotSqlite));
    assert_eq!(f.message(), "database.sqlite is not a valid SQLite database");
}

#[test]
fn backup_round_trips_the_database() {
    let bytes = db(b"round-trip-payload");
    let (name, archive) = create_backup_bundle(
        &bytes,
        "{\"schema\": 1}",
        1700000000123,
        2024,
        1,
        2,
        3,
        4,
        5,
        "backup_",
    )
    .expect("valid database packs");
    assert_eq!(name, "backup_20240102_030405.rentikpro");
    let plan = restore_apply("/ws", &archive).expect("own archive restores");
    assert_eq!(plan.bytes, bytes);
    assert_eq!(plan.db_path, "/ws/database.sqlite");
    assert_eq!(b64_decode(&plan.db_base64).unwrap(), bytes);
    assert_eq!(plan.steps.len(), 2);
    // the archive holds exactly the three entries, nothing else
    let ar = zip::ZipArchive::new(std::io::Cursor::new(archive)).expect("own archive opens");
    let mut names: Vec<&str> = ar.file_names().collect();
    names.sort_unstable();
    assert_eq!(names, vec!["database.sqlite", "metadata.json", "workspace.json"]);
}

#[test]
fn backup_refuses_invalid_database() {
    let err = create_backup_bundle(
        &b"not a database".to_vec(),
        "{}",
        0,
        2024,
        1,
        1,
        0,
        0,
        0,
        "backup_",
    )
    .unwrap_err();
    assert!(matches!(err, BackupFault::NotSqlite));
}

fn raw_zip_with_entry(name: &str, data: &[u8]) -> Vec<u8> {
    let mut w = zip::ZipWriter::new(std::io::Cursor::new(Vec::new()));
    let opts = zip::write::SimpleFileOptions::default();
    w.start_file(name, opts).unwrap();
    w.write_all(data).unwrap();
    w.finish().unwrap().into_inner()
}

#[test]
fn restore_accepts_legacy_entry_name() {
    let bytes = db(b"legacy");
    let archive = raw_zip_with_entry("db.sqlite", &bytes);
    let plan = restore_apply("/ws", &archive).expect("legacy entry restores");
    assert_eq!(plan.bytes, bytes);
}

#[test]
fn restore_refuses_archives_without_database() {
    let archive = raw_zip_with_entry("metadata.json", b"{}");
    let err = restore_apply("/ws", &archive).unwrap_err();
    assert!(matches!(err, ExtractFault::MissingDb));
    let err = restore_apply("/ws", &b"not a zip container".to_vec()).unwrap_err();
    assert!(matches!(err, ExtractFault::BadArchive));
    let archive = raw_zip_with_entry("database.sqlite", b"not sqlite");
    let err = restore_apply("/ws", &archive).unwrap_err();
    assert!(matches!(err, ExtractFault::NotSqlite));
}

#[test]
fn validate_project_messages() {
    let r = validate_project_result("/p", false, false, false, false);
    assert!(!r.ok);
    assert_eq!(r.error.as_deref(), Some("Folder does not exist"));
    assert_eq!(r.project_json_path, "/p/project.json");
    assert_eq!(r.db_path, "/p/db.sqlite");
    let r = validate_project_result("/p", true, false, false, false);
    assert_eq!(r.error.as_deref(), Some("Path is not a folder"));
    let r = validate_project_result("/p", true, true, false, true);
    assert_eq!(r.error.as_deref(), Some("Missing required files: project.json "));
    let r = validate_project_result("/p", true, true, true, false);
    assert_eq!(r.error.as_deref(), Some("Missing required files: db.sqlite"));
    let r = validate_project_result("/p", true, true, false, false);
    assert_eq!(r.error.as_deref(), Some("Missing required files: project.json db.sqlite"));
    let r = validate_project_result("/p", true, true, true, true);
    assert!(r.ok);
    assert!(r.error.is_none());
}

#[test]
fn write_project_plan_decisions() {
    let good = b64_encode(&b"any bytes".to_vec());
    let err = write_project_plan("/p", "{}", &good, false, false, false, false).unwrap_err();
    assert!(matches!(err, WriteProjectFault::NotDir));
    let err = write_project_plan("/p", "{}", &good, false, true, true, false).unwrap_err();
    assert!(matches!(err, WriteProjectFault::PjExists));
    let err = write_project_plan("/p", "{}", &good, false, true, false, true).unwrap_err();
    assert!(matches!(err, WriteProjectFault::DbExists));
    let err = write_project_plan("/p", "{}", "***", true, true, true, true).unwrap_err();
    assert!(matches!(err, WriteProjectFault::BadBase64));
    let e = write_project_plan("/p", "{\"a\":1}", &good, true, true, true, true).unwrap();
    assert_eq!(e.pj_path, "/p/project.json");
    assert_eq!(e.pj_bytes, b"{\"a\":1}".to_vec());
    assert_eq!(e.db_path, "/p/db.sqlite");
    assert_eq!(e.db_bytes, b"any bytes".to_vec());
}
