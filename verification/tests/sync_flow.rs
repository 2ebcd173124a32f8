//! The reconciler end to end at the engine boundary: decisions, upload,
//! refresh, conflict, download and the lock.

use rentik_sync::{
    SyncState, SyncMode, SyncAction, ConflictKind, sync_decide, sync_local_paths, refresh_effects, stay_effects,
    upload_effects, conflict_effects, download_effects, remote_paths, sha256_hex, b64_decode,
    parse_sync_state, parse_lock_info, render_lock_min, acquire_lock_plan, LockInfo, lock_decision,
    fresh_lock,
};

fn db(extra: &[u8]) -> Vec<u8> {
    let mut v = b"SQLite format 3\0".to_vec();
    v.extend_from_slice(extra);
    v
}

fn state_with_sha(sha: &str) -> SyncState {
    SyncState {
        version: 1,
        last_modified: 1,
        sha256: sha.to_string(),
        client_id: "other".to_string(),
    }
}

#[test]
fn first_push_uploads_and_states_agree() {
    // remote state absent: an upward call uploads unconditionally
    let local = db(&[7u8; 84]);
    assert_eq!(local.len(), 100);
    let l = sha256_hex(&local);
    let action = sync_decide(&SyncMode::Up, false, &l, &None, &None);
    assert!(matches!(action, SyncAction::Upload));

    let paths = remote_paths("https://host/dav", "ws1").unwrap();
    let e = upload_effects(&paths, "client-a", 1700000000123, &local);
    assert!(e.response.success);
    assert_eq!(e.response.applied, Some(true));
    assert_eq!(e.new_state.sha256, l);
    assert_eq!(e.new_state.client_id, "client-a");
    assert!(e.tmp_url.starts_with("https://host/dav/RentikProSync/ws1/db.sqlite.uploading.client-a."));

    // what lands remotely and locally reads back as the same state
    let remote_read = parse_sync_state(&e.state_body_remote).unwrap();
    let local_read = parse_sync_state(&e.state_body_local).unwrap();
    assert_eq!(remote_read.sha256, l);
    assert_eq!(local_read.sha256, l);
    assert_eq!(remote_read.client_id, local_read.client_id);
}

#[test]
fn idempotent_repush_is_a_refresh() {
    let local = db(&[7u8; 84]);
    let l = sha256_hex(&local);
    let st = state_with_sha(&l);
    let action = sync_decide(&SyncMode::Up, false, &l, &Some(st.duplicate()), &Some(st.duplicate()));
    assert!(matches!(action, SyncAction::Refresh));
    let (body, resp) = refresh_effects(&st);
    assert!(resp.success);
    assert_eq!(resp.applied, Some(false));
    assert_eq!(parse_sync_state(&body).unwrap().sha256, l);
}

#[test]
fn both_changed_up_conflicts_and_quarantines_both() {
    let local = db(b"local-changes");
    let y = sha256_hex(&local);
    let x = sha256_hex(&db(b"common-ancestor"));
    let z = sha256_hex(&db(b"remote-changes"));
    assert_ne!(y, x);
    assert_ne!(z, x);
    let ls = state_with_sha(&x);
    let rs = state_with_sha(&z);
    let action = sync_decide(&SyncMode::Up, false, &y, &Some(ls.duplicate()), &Some(rs.duplicate()));
    match action {
        SyncAction::Conflict { quarantine_local, quarantine_remote, kind } => {
            assert!(quarantine_local);
            assert!(quarantine_remote);
            assert!(matches!(kind, ConflictKind::BothChanged));
        },
        _ => panic!("both-changed up without force must conflict"),
    }
    let lp = sync_local_paths("/ws");
    let e = conflict_effects(
        true,
        true,
        &ConflictKind::BothChanged,
        1700000000123,
        &local,
        &rs,
        &Some(ls),
        &lp.conflicts_dir,
    );
    assert!(!e.response.success);
    assert!(e.response.conflict);
    assert_eq!(e.response.error.as_deref(), Some("Conflict: both local and remote changed"));
    let local_copy = e.local_copy.unwrap();
    let remote_copy = e.remote_copy.unwrap();
    assert_eq!(local_copy, format!("/ws/sync/conflicts/local-1700000000123-{}.sqlite", &y[..8]));
    assert_eq!(remote_copy, format!("/ws/sync/conflicts/remote-1700000000123-{}.sqlite", &z[..8]));
}

#[test]
fn force_clears_the_conflict_rows() {
    let local = db(b"local-changes");
    let y = sha256_hex(&local);
    let x = sha256_hex(&db(b"common-ancestor"));
    let z = sha256_hex(&db(b"remote-changes"));
    let ls = state_with_sha(&x);
    let rs = state_with_sha(&z);
    let action = sync_decide(&SyncMode::Up, true, &y, &Some(ls), &Some(rs));
    assert!(matches!(action, SyncAction::Upload));
}

#[test]
fn download_applies_remote_and_snapshots_local() {
    let remote = db(b"remote-content");
    let r = sha256_hex(&remote);
    let local = db(b"never-synced-local");
    let q = sha256_hex(&local);
    assert_ne!(q, r);
    let rs = state_with_sha(&r);
    let action = sync_decide(&SyncMode::Down, false, &q, &None, &Some(rs.duplicate()));
    assert!(matches!(action, SyncAction::Download));
    let lp = sync_local_paths("/ws");
    let e = download_effects(&remote, &rs, &local, &None, 1700000000123, &lp.backups_dir)
        .expect("matching hash applies");
    assert_eq!(
        e.backup_path,
        format!("/ws/sync/backups/local-1700000000123-{}.sqlite", &q[..8])
    );
    assert!(e.response.success);
    assert_eq!(e.response.applied, Some(true));
    assert_eq!(b64_decode(&e.db_b64).unwrap(), remote);
    assert_eq!(e.response.local_state.as_ref().unwrap().sha256, r);
    assert_eq!(parse_sync_state(&e.state_body_local).unwrap().sha256, r);
}

#[test]
fn download_integrity_mismatch_refuses() {
    let remote = db(b"tampered-bytes");
    let rs = state_with_sha(&sha256_hex(&db(b"claimed-content")));
    let local = db(b"local");
    let lp = sync_local_paths("/ws");
    let err = download_effects(&remote, &rs, &local, &None, 1, &lp.backups_dir)
        .expect_err("hash mismatch must refuse");
    assert!(!err.success);
    assert_eq!(err.error.as_deref(), Some("Downloaded sha256 mismatch"));
    assert!(err.applied.is_none());
    assert!(err.db_base64.is_none());
}

#[test]
fn down_with_no_remote_state_stays() {
    let q = sha256_hex(&db(b"x"));
    let action = sync_decide(&SyncMode::Down, false, &q, &None, &None);
    assert!(matches!(action, SyncAction::Stay));
    let ls = state_with_sha(&q);
    let resp = stay_effects(&Some(ls));
    assert!(resp.success);
    assert!(resp.error.is_none());
    assert!(!resp.conflict);
    assert!(resp.remote_state.is_none());
    assert_eq!(resp.local_state.as_ref().unwrap().sha256, q);
    assert!(resp.db_base64.is_none());
    assert_eq!(resp.applied, Some(false));
    let resp = stay_effects(&None);
    assert!(resp.local_state.is_none());
    assert!(resp.success);
}

#[test]
fn down_local_changed_only_conflicts() {
    let local = db(b"ahead");
    let y = sha256_hex(&local);
    let x = sha256_hex(&db(b"ancestor"));
    let ls = state_with_sha(&x);
    let rs = state_with_sha(&x);
    let action = sync_decide(&SyncMode::Down, false, &y, &Some(ls), &Some(rs));
    match action {
        SyncAction::Conflict { quarantine_local, quarantine_remote, kind } => {
            assert!(quarantine_local);
            assert!(!quarantine_remote);
            assert!(matches!(kind, ConflictKind::LocalChanged));
        },
        _ => panic!("local-ahead down without force must conflict"),
    }
}

#[test]
fn lock_absent_or_unparseable_is_free() {
    // absent body: acquisition proceeds
    let got = acquire_lock_plan(&None, "me", 1000).expect("absent lock is free");
    assert_eq!(got.0.client_id, "me");
    assert_eq!(got.0.created_at, 1000);
    assert_eq!(got.0.expires_at, 121000);
    assert_eq!(got.1, render_lock_min(&got.0));
    // unparseable body: treated as free
    let got = acquire_lock_plan(&Some("not json at all".to_string()), "me", 1000)
        .expect("unparseable lock is free");
    assert!(parse_lock_info("not json at all").is_none());
    assert_eq!(got.0.expires_at, 121000);
}

#[test]
fn lock_held_by_other_blocks_until_expiry() {
    let other = LockInfo {
        version: 1,
        client_id: "other".to_string(),
        created_at: 0,
        expires_at: 2000,
    };
    let body = render_lock_min(&other);
    assert!(acquire_lock_plan(&Some(body.clone()), "me", 1000).is_none());
    let got = acquire_lock_plan(&Some(body), "me", 3000).expect("lapsed lock is free");
    assert_eq!(got.0.expires_at, 123000);
}

#[test]
fn lock_held_by_self_refreshes_expiry() {
    let own = LockInfo {
        version: 1,
        client_id: "me".to_string(),
        created_at: 0,
        expires_at: 2000,
    };
    assert!(lock_decision(&Some(own.duplicate()), "me", 1000));
    let body = render_lock_min(&own);
    let got = acquire_lock_plan(&Some(body), "me", 1000).expect("own lock never blocks");
    assert_eq!(got.0.expires_at, 121000);
    let fresh = fresh_lock("me", 500);
    assert_eq!(fresh.expires_at, 120500);
    assert_eq!(fresh.version, 1);
}
