//! The magic check, hashing, base64, and path and name derivation.

use rentik_sync::{
    is_sqlite_bytes, sha256_hex, b64_encode, b64_decode, join_base, workspace_paths,
    project_paths, tmp_path_for, is_valid_backup_name, backup_file_for, snapshot_name,
    upload_tmp_name, timestamp_backup_name, str_trim_ws, clean_base_url, remote_paths,
    RemoteFault, basic_auth_header, mkcol_ok, get_outcome, GetOutcome, put_ok, delete_ok,
    list_backups_core,
};

fn sqlite_bytes(extra: &[u8]) -> Vec<u8> {
    let mut v = b"SQLite format 3\0".to_vec();
    v.extend_from_slice(extra);
    v
}

#[test]
fn magic_accepts_valid_header() {
    assert!(is_sqlite_bytes(&sqlite_bytes(b"payload")));
    assert!(is_sqlite_bytes(&sqlite_bytes(b"")));
}

#[test]
fn magic_rejects_short_and_wrong() {
    assert!(!is_sqlite_bytes(&b"SQLite".to_vec()));
    assert!(!is_sqlite_bytes(&b"SQLite format 4\0padding".to_vec()));
    assert!(!is_sqlite_bytes(&Vec::new()));
}

#[test]
fn sha256_known_vector() {
    let h = sha256_hex(&b"abc".to_vec());
    assert_eq!(h, "ba7816bf8f01cfea414140de5dae2223b00361a396177a9cb410ff61f20015ad");
    assert_eq!(h.len(), 64);
}

#[test]
fn base64_round_trip() {
    let data = sqlite_bytes(b"roundtrip");
    let text = b64_encode(&data);
    let back = b64_decode(&text).expect("canonical text decodes");
    assert_eq!(back, data);
    assert!(b64_decode("not*base64*").is_err());
}

#[test]
fn join_base_normalizes_slashes() {
    assert_eq!(join_base("https://host/dav/", "sync/state.json"), "https://host/dav/sync/state.json");
    assert_eq!(join_base("https://host", "/x"), "https://host/x");
    assert_eq!(join_base("https://host///", "///x"), "https://host/x");
}

#[test]
fn workspace_and_project_paths() {
    let (wj, db, backups, media) = workspace_paths("/ws");
    assert_eq!(wj, "/ws/workspace.json");
    assert_eq!(db, "/ws/database.sqlite");
    assert_eq!(backups, "/ws/backups");
    assert_eq!(media, "/ws/media");
    let (pj, pdb) = project_paths("/p");
    assert_eq!(pj, "/p/project.json");
    assert_eq!(pdb, "/p/db.sqlite");
}

#[test]
fn tmp_path_appends_suffix() {
    assert_eq!(tmp_path_for("/ws/database.sqlite"), "/ws/database.sqlite.tmp");
}

#[test]
fn backup_name_rejects_traversal() {
    assert!(!is_valid_backup_name("../evil"));
    assert!(!is_valid_backup_name("a/b"));
    assert!(!is_valid_backup_name("a\\b"));
    assert!(!is_valid_backup_name(".."));
    assert!(is_valid_backup_name("backup_20240101_000000.rentikpro"));
}

#[test]
fn backup_file_resolution() {
    assert_eq!(backup_file_for("b1"), "b1.rentikpro");
    assert_eq!(backup_file_for("b1.rentikpro"), "b1.rentikpro");
}

#[test]
fn snapshot_and_upload_names() {
    let sha = "abcdef0123456789abcdef0123456789abcdef0123456789abcdef0123456789";
    assert_eq!(snapshot_name("local", 1700000000123, sha), "local-1700000000123-abcdef01.sqlite");
    assert_eq!(snapshot_name("remote", -5, sha), "remote--5-abcdef01.sqlite");
    assert_eq!(upload_tmp_name("client-a", 42), "db.sqlite.uploading.client-a.42");
}

#[test]
fn timestamped_backup_name() {
    assert_eq!(
        timestamp_backup_name("backup_", 2024, 3, 5, 7, 9, 11, "rentikpro"),
        "backup_20240305_070911.rentikpro"
    );
    assert_eq!(
        timestamp_backup_name("autobackup_before_reset_", 999, 12, 31, 23, 59, 59, "rentikpro"),
        "autobackup_before_reset_09991231_235959.rentikpro"
    );
}

#[test]
fn trimming() {
    assert_eq!(str_trim_ws("  slug \n"), "slug");
    assert_eq!(str_trim_ws(" \t "), "");
    assert_eq!(clean_base_url(" https://host/dav/// "), "https://host/dav");
    assert_eq!(clean_base_url(" /// "), "");
}

#[test]
fn remote_paths_validation_and_layout() {
    match remote_paths("https://host/dav", "  ") {
        Err(RemoteFault::MissingSlug) => {},
        _ => panic!("empty slug must be refused"),
    }
    match remote_paths("   ", "ws1") {
        Err(RemoteFault::MissingUrl) => {},
        _ => panic!("empty base must be refused"),
    }
    let p = remote_paths("https://host/dav/", " ws1 ").expect("valid inputs");
    assert_eq!(p.base, "https://host/dav");
    assert_eq!(p.top_col, "https://host/dav/RentikProSync");
    assert_eq!(p.root, "https://host/dav/RentikProSync/ws1");
    assert_eq!(p.sync_col, "https://host/dav/RentikProSync/ws1/sync");
    assert_eq!(p.state_url, "https://host/dav/RentikProSync/ws1/sync/state.json");
    assert_eq!(p.lock_url, "https://host/dav/RentikProSync/ws1/sync/lock.json");
    assert_eq!(p.db_url, "https://host/dav/RentikProSync/ws1/db.sqlite");
}

#[test]
fn auth_header_is_basic_base64() {
    assert_eq!(basic_auth_header("user", "pass"), "Basic dXNlcjpwYXNz");
}

#[test]
fn dav_status_policies() {
    assert!(mkcol_ok(201));
    assert!(mkcol_ok(405));
    assert!(!mkcol_ok(200));
    assert!(matches!(get_outcome(404), GetOutcome::NotFound));
    assert!(matches!(get_outcome(200), GetOutcome::Success));
    assert!(matches!(get_outcome(500), GetOutcome::Failure));
    assert!(put_ok(204));
    assert!(!put_ok(403));
    assert!(delete_ok(404));
    assert!(delete_ok(204));
    assert!(!delete_ok(500));
}

#[test]
fn list_backups_filters_and_sorts_descending() {
    let names: Vec<String> = vec![
        "backup_20240101_000000.rentikpro".to_string(),
        "notes.txt".to_string(),
        "backup_20240301_120000.rentikpro".to_string(),
        "old.zip".to_string(),
        "backup_20231231_235959.rentikpro".to_string(),
    ];
    let out = list_backups_core(names);
    assert_eq!(
        out,
        vec![
            "old.zip".to_string(),
            "backup_20240301_120000.rentikpro".to_string(),
            "backup_20240101_000000.rentikpro".to_string(),
            "backup_20231231_235959.rentikpro".to_string(),
        ]
    );
}

#[test]
fn list_backups_empty_and_all_filtered() {
    assert!(list_backups_core(Vec::new()).is_empty());
    let out = list_backups_core(vec!["a.txt".to_string(), "b.sqlite".to_string()]);
    assert!(out.is_empty());
}
