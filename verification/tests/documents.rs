//! The JSON documents: rendering is byte-exact and parsing reads back what
//! rendering wrote; the manifest and metadata documents, which the engine
//! writes as generic JSON values, are held against serde_json's output.

use rentik_sync::{
    SyncState, LockInfo, render_state_min, render_state_pretty, render_lock_min,
    render_default_manifest, render_backup_metadata, parse_sync_state, parse_lock_info,
};

fn sample_state() -> SyncState {
    SyncState {
        version: 1,
        last_modified: 1700000000123,
        sha256: "ba7816bf8f01cfea414140de5dae2223b00361a396177a9cb410ff61f20015ad".to_string(),
        client_id: "client-a".to_string(),
    }
}

#[test]
fn state_compact_is_exact() {
    // keys in declaration order, as the engine's state documents are written
    let s = sample_state();
    let expected = "{\"version\":1,\"lastModified\":1700000000123,\"sha256\":\"ba7816bf8f01cfea414140de5dae2223b00361a396177a9cb410ff61f20015ad\",\"clientId\":\"client-a\"}";
    assert_eq!(render_state_min(&s), expected);
}

#[test]
fn state_pretty_is_exact() {
    let s = sample_state();
    let expected = "{\n  \"version\": 1,\n  \"lastModified\": 1700000000123,\n  \"sha256\": \"ba7816bf8f01cfea414140de5dae2223b00361a396177a9cb410ff61f20015ad\",\n  \"clientId\": \"client-a\"\n}";
    assert_eq!(render_state_pretty(&s), expected);
}

#[test]
fn state_parses_back_from_both_renderings() {
    let s = sample_state();
    for text in [render_state_min(&s), render_state_pretty(&s)] {
        let p = parse_sync_state(&text).expect("own rendering parses");
        assert_eq!(p.version, s.version);
        assert_eq!(p.last_modified, s.last_modified);
        assert_eq!(p.sha256, s.sha256);
        assert_eq!(p.client_id, s.client_id);
    }
}

#[test]
fn state_parse_handles_escapes_and_whitespace() {
    let s = SyncState {
        version: 1,
        last_modified: -7,
        sha256: "00000000".to_string(),
        client_id: "a\"b\\c\nd".to_string(),
    };
    let text = render_state_min(&s);
    let p = parse_sync_state(&text).expect("escaped rendering parses");
    assert_eq!(p.client_id, "a\"b\\c\nd");
    assert_eq!(p.last_modified, -7);
    let spaced =
        " { \"version\" : 1 , \"lastModified\" : 5 , \"sha256\" : \"x\" , \"clientId\" : \"c\" } ";
    let q = parse_sync_state(spaced).expect("whitespace tolerated");
    assert_eq!(q.last_modified, 5);
}

#[test]
fn state_parse_rejects_malformed() {
    assert!(parse_sync_state("").is_none());
    assert!(parse_sync_state("{}").is_none());
    assert!(parse_sync_state("not json").is_none());
    assert!(parse_sync_state("{\"version\":1}").is_none());
    assert!(
        parse_sync_state(
            "{\"version\":99999999999999999999,\"lastModified\":1,\"sha256\":\"x\",\"clientId\":\"c\"}"
        )
        .is_none()
    );
}

#[test]
fn lock_compact_is_exact() {
    let lk = LockInfo {
        version: 1,
        client_id: "client-a".to_string(),
        created_at: 1700000000000,
        expires_at: 1700000120000,
    };
    let expected = "{\"version\":1,\"clientId\":\"client-a\",\"createdAt\":1700000000000,\"expiresAt\":1700000120000}";
    assert_eq!(render_lock_min(&lk), expected);
}

#[test]
fn lock_parses_back() {
    let lk = LockInfo {
        version: 1,
        client_id: "c2".to_string(),
        created_at: 10,
        expires_at: 120010,
    };
    let p = parse_lock_info(&render_lock_min(&lk)).expect("own rendering parses");
    assert_eq!(p.version, 1);
    assert_eq!(p.client_id, "c2");
    assert_eq!(p.created_at, 10);
    assert_eq!(p.expires_at, 120010);
    assert!(parse_lock_info("garbage").is_none());
    assert!(parse_lock_info("{\"version\":1}").is_none());
}

#[test]
fn manifest_matches_serde() {
    let now: i64 = 1700000000123;
    let mut m = serde_json::Map::new();
    m.insert("createdAt".to_string(), serde_json::Value::from(now));
    m.insert("dbFile".to_string(), serde_json::Value::from("database.sqlite"));
    m.insert("id".to_string(), serde_json::Value::from(format!("ws_{now}")));
    m.insert("kind".to_string(), serde_json::Value::from("workspace"));
    m.insert("schema".to_string(), serde_json::Value::from(1));
    m.insert("updatedAt".to_string(), serde_json::Value::from(now));
    let expected = serde_json::to_string_pretty(&serde_json::Value::Object(m)).unwrap();
    assert_eq!(render_default_manifest(now), expected);
}

#[test]
fn metadata_matches_serde() {
    let now: i64 = 1700000000123;
    let mut m = serde_json::Map::new();
    m.insert("app".to_string(), serde_json::Value::from("RentikPro"));
    m.insert("createdAt".to_string(), serde_json::Value::from(now));
    m.insert("dbFile".to_string(), serde_json::Value::from("database.sqlite"));
    m.insert("format".to_string(), serde_json::Value::from("rentikpro-workspace-backup"));
    let expected = serde_json::to_string_pretty(&serde_json::Value::Object(m)).unwrap();
    assert_eq!(render_backup_metadata(now), expected);
}
