//! The sync reconciler: the three-way comparison of the local database hash,
//! the last-synced state and the remote state; the action it selects; and
//! the exact effects of each action. The caller performs the reads and
//! writes; every decision and every produced value is computed here.

use vstd::prelude::*;
use crate::state::{SyncState, state_eq, duplicate_opt_state};
use crate::digest::{sha256_hex, sha256_hex_of};
use crate::b64::{b64_encode, b64_of};
use crate::docs::{
    render_state_min, render_state_pretty, state_json_min_of, state_json_pretty_of,
};
use crate::paths::{
    RemotePaths, join_base, join_base_of, path_join, join_path, snapshot_name, snapshot_name_of,
    upload_tmp_name, upload_tmp_name_of,
};
use crate::text::str_eq;

verus! {

/// The direction of a sync call.
#[derive(Debug)]
pub enum SyncMode {
    /// Push the local database to the remote side.
    Up,
    /// Pull the remote database to the local side.
    Down,
}

/// Which conflict row of the decision table fired.
#[derive(Debug)]
pub enum ConflictKind {
    /// The remote side has data but this side has never synchronized.
    NoLocalState,
    /// Only the remote side changed since the last sync (upward call).
    RemoteChanged,
    /// Both sides changed since the last sync.
    BothChanged,
    /// Only the local side changed since the last sync (downward call).
    LocalChanged,
}

/// The action the decision tables select.
#[derive(Debug)]
pub enum SyncAction {
    /// Nothing to do and nothing to write (downward call, remote absent).
    Stay,
    /// Contents already agree: refresh the local state from the remote state.
    Refresh,
    /// Run the upload procedure.
    Upload,
    /// Run the download procedure.
    Download,
    /// Refuse and quarantine the named sides.
    Conflict { quarantine_local: bool, quarantine_remote: bool, kind: ConflictKind },
}

/// The decision table for an upward sync. `force` clears every conflict row.
pub open spec fn decide_up(
    force: bool,
    local_sha: Seq<char>,
    ls: Option<SyncState>,
    rs: Option<SyncState>,
) -> SyncAction {
    match rs {
        None => SyncAction::Upload,
        Some(r) => match ls {
            None => if force {
                SyncAction::Upload
            } else {
                SyncAction::Conflict {
                    quarantine_local: true,
                    quarantine_remote: true,
                    kind: ConflictKind::NoLocalState,
                }
            },
            Some(s) => {
                let local_changed = local_sha != s.sha256@;
                let remote_changed = r.sha256@ != s.sha256@;
                if !local_changed && !remote_changed {
                    SyncAction::Refresh
                } else if remote_changed && !local_changed && !force {
                    SyncAction::Conflict {
                        quarantine_local: false,
                        quarantine_remote: true,
                        kind: ConflictKind::RemoteChanged,
                    }
                } else if local_changed && remote_changed && !force {
                    SyncAction::Conflict {
                        quarantine_local: true,
                        quarantine_remote: true,
                        kind: ConflictKind::BothChanged,
                    }
                } else {
                    SyncAction::Upload
                }
            },
        },
    }
}

/// The decision table for a downward sync, top row first: an absent remote
/// is a no-op; a local hash already equal to the remote hash refreshes the
/// local state; otherwise the conflict rows run unless `force` clears them,
/// and what remains downloads.
pub open spec fn decide_down(
    force: bool,
    local_sha: Seq<char>,
    ls: Option<SyncState>,
    rs: Option<SyncState>,
) -> SyncAction {
    match rs {
        None => SyncAction::Stay,
        Some(r) => if ls is None {
            SyncAction::Download
        } else if local_sha == r.sha256@ {
            SyncAction::Refresh
        } else {
            let s = ls->Some_0;
            let local_changed = local_sha != s.sha256@;
            let remote_changed = r.sha256@ != s.sha256@;
            if local_changed && !remote_changed && !force {
                SyncAction::Conflict {
                    quarantine_local: true,
                    quarantine_remote: false,
                    kind: ConflictKind::LocalChanged,
                }
            } else if local_changed && remote_changed && !force {
                SyncAction::Conflict {
                    quarantine_local: true,
                    quarantine_remote: true,
                    kind: ConflictKind::BothChanged,
                }
            } else {
                SyncAction::Download
            }
        },
    }
}

/// The decision for either direction.
pub open spec fn sync_decision(
    mode: SyncMode,
    force: bool,
    local_sha: Seq<char>,
    ls: Option<SyncState>,
    rs: Option<SyncState>,
) -> SyncAction {
    match mode {
        SyncMode::Up => decide_up(force, local_sha, ls, rs),
        SyncMode::Down => decide_down(force, local_sha, ls, rs),
    }
}

/// Selects the action for this call from the three-way comparison.
pub fn sync_decide(
    mode: &SyncMode,
    force: bool,
    local_sha: &str,
    ls: &Option<SyncState>,
    rs: &Option<SyncState>,
) -> (r: SyncAction)
    ensures
        r == sync_decision(*mode, force, local_sha@, *ls, *rs),
{
    match mode {
        SyncMode::Up => {
            match rs {
                None => SyncAction::Upload,
                Some(rv) => match ls {
                    None => if force {
                        SyncAction::Upload
                    } else {
                        SyncAction::Conflict {
                            quarantine_local: true,
                            quarantine_remote: true,
                            kind: ConflictKind::NoLocalState,
                        }
                    },
                    Some(sv) => {
                        let local_changed = !str_eq(local_sha, sv.sha256.as_str());
                        let remote_changed = !str_eq(rv.sha256.as_str(), sv.sha256.as_str());
                        if !local_changed && !remote_changed {
                            SyncAction::Refresh
                        } else if remote_changed && !local_changed && !force {
                            SyncAction::Conflict {
                                quarantine_local: false,
                                quarantine_remote: true,
                                kind: ConflictKind::RemoteChanged,
                            }
                        } else if local_changed && remote_changed && !force {
                            SyncAction::Conflict {
                                quarantine_local: true,
                                quarantine_remote: true,
                                kind: ConflictKind::BothChanged,
                            }
                        } else {
                            SyncAction::Upload
                        }
                    },
                },
            }
        },
        SyncMode::Down => {
            match rs {
                None => SyncAction::Stay,
                Some(rv) => {
                    let sv = match ls {
                        Some(s) => s,
                        None => {
                            return SyncAction::Download;
                        },
                    };
                    if str_eq(local_sha, rv.sha256.as_str()) {
                        return SyncAction::Refresh;
                    }
                    let local_changed = !str_eq(local_sha, sv.sha256.as_str());
                    let remote_changed = !str_eq(rv.sha256.as_str(), sv.sha256.as_str());
                    if local_changed && !remote_changed && !force {
                        SyncAction::Conflict {
                            quarantine_local: true,
                            quarantine_remote: false,
                            kind: ConflictKind::LocalChanged,
                        }
                    } else if local_changed && remote_changed && !force {
                        SyncAction::Conflict {
                            quarantine_local: true,
                            quarantine_remote: true,
                            kind: ConflictKind::BothChanged,
                        }
                    } else {
                        SyncAction::Download
                    }
                },
            }
        },
    }
}

/// The quarantine paths named in a conflict response.
#[derive(Debug)]
pub struct ConflictPaths {
    /// Where the local side's bytes were copied.
    pub local_copy: Option<String>,
    /// Where the remote side's bytes were copied (best effort).
    pub remote_copy: Option<String>,
}

/// The structured result of a sync call.
#[derive(Debug)]
pub struct SyncResponse {
    /// The call achieved its aim.
    pub success: bool,
    /// What went wrong, when something did.
    pub error: Option<String>,
    /// A conflict row fired.
    pub conflict: bool,
    /// The remote state as of this call.
    pub remote_state: Option<SyncState>,
    /// The local state as of this call.
    pub local_state: Option<SyncState>,
    /// Quarantine copies produced by a conflict.
    pub conflict_paths: Option<ConflictPaths>,
    /// The database bytes applied locally, base64, on a download.
    pub db_base64: Option<String>,
    /// Whether the database was replaced on either side.
    pub applied: Option<bool>,
}

/// The local paths a sync call touches under the project root.
#[derive(Debug)]
pub struct SyncLocalPaths {
    /// The sync metadata directory.
    pub sync_dir: String,
    /// Pre-download snapshots.
    pub backups_dir: String,
    /// Quarantine copies.
    pub conflicts_dir: String,
    /// The local state document.
    pub state_path: String,
    /// The local database file a sync call reads and writes.
    pub db_path: String,
}

/// Derives the local sync paths from the project root.
pub fn sync_local_paths(project_root: &str) -> (r: SyncLocalPaths)
    ensures
        r.sync_dir@ == path_join(project_root@, "sync"@),
        r.backups_dir@ == path_join(path_join(project_root@, "sync"@), "backups"@),
        r.conflicts_dir@ == path_join(path_join(project_root@, "sync"@), "conflicts"@),
        r.state_path@ == path_join(path_join(project_root@, "sync"@), "state.json"@),
        r.db_path@ == path_join(project_root@, "db.sqlite"@),
{
    let sync_dir = join_path(project_root, "sync");
    let backups_dir = join_path(sync_dir.as_str(), "backups");
    let conflicts_dir = join_path(sync_dir.as_str(), "conflicts");
    let state_path = join_path(sync_dir.as_str(), "state.json");
    let db_path = join_path(project_root, "db.sqlite");
    SyncLocalPaths { sync_dir, backups_dir, conflicts_dir, state_path, db_path }
}

/// What the stay action returns (a downward call with no remote state):
/// the call succeeds without applying anything, nothing is written on
/// either side, and the local snapshot carries the local state as read.
pub fn stay_effects(ls: &Option<SyncState>) -> (r: SyncResponse)
    ensures
        r.success,
        r.error is None,
        !r.conflict,
        r.remote_state is None,
        r.local_state is Some <==> ls is Some,
        r.local_state matches Some(s) ==> state_eq(s, ls->Some_0),
        r.conflict_paths is None,
        r.db_base64 is None,
        r.applied == Some(false),
{
    SyncResponse {
        success: true,
        error: None,
        conflict: false,
        remote_state: None,
        local_state: duplicate_opt_state(ls),
        conflict_paths: None,
        db_base64: None,
        applied: Some(false),
    }
}

/// What the refresh action writes and returns: the remote state pretty-
/// printed for the local state file, and a successful, unapplied response
/// whose two state snapshots both carry the remote state.
pub fn refresh_effects(rs: &SyncState) -> (r: (String, SyncResponse))
    ensures
        r.0@ == state_json_pretty_of(*rs),
        r.1.success,
        r.1.error is None,
        !r.1.conflict,
        r.1.remote_state matches Some(s) && state_eq(s, *rs),
        r.1.local_state matches Some(s) && state_eq(s, *rs),
        r.1.conflict_paths is None,
        r.1.db_base64 is None,
        r.1.applied == Some(false),
{
    let body = render_state_pretty(rs);
    let resp = SyncResponse {
        success: true,
        error: None,
        conflict: false,
        remote_state: Some(rs.duplicate()),
        local_state: Some(rs.duplicate()),
        conflict_paths: None,
        db_base64: None,
        applied: Some(false),
    };
    (body, resp)
}

/// Everything the upload procedure writes, in order: the database bytes go
/// to the local database path and to the temporary remote object, the move
/// lands them on the remote database object, and the fresh state goes to the
/// remote state document (compact) and the local state file (pretty).
#[derive(Debug)]
pub struct UploadEffects {
    /// The uniquely named temporary remote object to put the bytes to.
    pub tmp_url: String,
    /// The compact state body for the remote state document.
    pub state_body_remote: String,
    /// The pretty state body for the local state file.
    pub state_body_local: String,
    /// The fresh state both sides record.
    pub new_state: SyncState,
    /// The successful response.
    pub response: SyncResponse,
}

/// Builds the upload effects. The fresh state's hash is the hash of the
/// database bytes being pushed, so after these writes the local state, the
/// remote state and the database hash agree on both sides.
pub fn upload_effects(paths: &RemotePaths, client_id: &str, now: i64, local_db: &Vec<u8>) -> (r:
    UploadEffects)
    ensures
        r.new_state.version == 1,
        r.new_state.last_modified == now,
        r.new_state.sha256@ == sha256_hex_of(local_db@),
        r.new_state.client_id@ == client_id@,
        r.tmp_url@ == join_base_of(paths.root@, upload_tmp_name_of(client_id@, now as int)),
        r.state_body_remote@ == state_json_min_of(r.new_state),
        r.state_body_local@ == state_json_pretty_of(r.new_state),
        r.response.success,
        r.response.error is None,
        !r.response.conflict,
        r.response.remote_state matches Some(s) && state_eq(s, r.new_state),
        r.response.local_state matches Some(s) && state_eq(s, r.new_state),
        r.response.conflict_paths is None,
        r.response.db_base64 is None,
        r.response.applied == Some(true),
{
    let local_sha = sha256_hex(local_db);
    let new_state = SyncState {
        version: 1,
        last_modified: now,
        sha256: local_sha,
        client_id: client_id.to_owned(),
    };
    let tmp_name = upload_tmp_name(client_id, now);
    let tmp_url = join_base(paths.root.as_str(), tmp_name.as_str());
    let state_body_remote = render_state_min(&new_state);
    let state_body_local = render_state_pretty(&new_state);
    let resp = SyncResponse {
        success: true,
        error: None,
        conflict: false,
        remote_state: Some(new_state.duplicate()),
        local_state: Some(new_state.duplicate()),
        conflict_paths: None,
        db_base64: None,
        applied: Some(true),
    };
    UploadEffects { tmp_url, state_body_remote, state_body_local, new_state, response: resp }
}

/// The message a conflict row reports.
pub open spec fn conflict_message_of(kind: ConflictKind) -> Seq<char> {
    match kind {
        ConflictKind::NoLocalState => "Conflict: remote has data but local has no sync state (use Download or Force Upload)"@,
        ConflictKind::RemoteChanged => "Conflict: remote changed since last sync (download first or Force Upload)"@,
        ConflictKind::BothChanged => "Conflict: both local and remote changed"@,
        ConflictKind::LocalChanged => "Conflict: local changed since last sync (upload first or Force Download)"@,
    }
}

/// The quarantine copies a conflict produces and the refusal it reports.
/// The caller writes the local database bytes to `local_copy` (and must fail
/// the call if that write fails), fetches the remote database and writes it
/// to `remote_copy` best-effort, and returns the response.
#[derive(Debug)]
pub struct ConflictEffects {
    /// Where to copy the local side's bytes, when the local side is
    /// quarantined.
    pub local_copy: Option<String>,
    /// Where to copy the remote side's bytes, when the remote side is
    /// quarantined.
    pub remote_copy: Option<String>,
    /// The refusal response, with the quarantine paths named.
    pub response: SyncResponse,
}

/// Builds the conflict effects. The local copy's name carries the first
/// eight hex digits of the local bytes' hash; the remote copy's name carries
/// those of the hash the remote state claims.
pub fn conflict_effects(
    quarantine_local: bool,
    quarantine_remote: bool,
    kind: &ConflictKind,
    now: i64,
    local_db: &Vec<u8>,
    rs: &SyncState,
    ls: &Option<SyncState>,
    conflicts_dir: &str,
) -> (r: ConflictEffects)
    requires
        rs.sha256@.len() >= 8,
    ensures
        r.local_copy is Some <==> quarantine_local,
        r.local_copy matches Some(p) ==> p@ == path_join(
            conflicts_dir@,
            snapshot_name_of("local"@, now as int, sha256_hex_of(local_db@)),
        ),
        r.remote_copy is Some <==> quarantine_remote,
        r.remote_copy matches Some(p) ==> p@ == path_join(
            conflicts_dir@,
            snapshot_name_of("remote"@, now as int, rs.sha256@),
        ),
        !r.response.success,
        r.response.conflict,
        r.response.error matches Some(m) && m@ == conflict_message_of(*kind),
        r.response.remote_state matches Some(s) && state_eq(s, *rs),
        r.response.local_state is Some <==> ls is Some,
        r.response.local_state matches Some(s) ==> state_eq(s, ls->Some_0),
        r.response.conflict_paths matches Some(cp) && cp.local_copy == r.local_copy
            && cp.remote_copy == r.remote_copy,
        r.response.db_base64 is None,
        r.response.applied is None,
{
    let local_sha = sha256_hex(local_db);
    let local_copy: Option<String> = if quarantine_local {
        let name = snapshot_name("local", now, local_sha.as_str());
        Some(join_path(conflicts_dir, name.as_str()))
    } else {
        None
    };
    let remote_copy: Option<String> = if quarantine_remote {
        let name = snapshot_name("remote", now, rs.sha256.as_str());
        Some(join_path(conflicts_dir, name.as_str()))
    } else {
        None
    };
    let msg: String = match kind {
        ConflictKind::NoLocalState => String::from_str(
            "Conflict: remote has data but local has no sync state (use Download or Force Upload)",
        ),
        ConflictKind::RemoteChanged => String::from_str(
            "Conflict: remote changed since last sync (download first or Force Upload)",
        ),
        ConflictKind::BothChanged => String::from_str("Conflict: both local and remote changed"),
        ConflictKind::LocalChanged => String::from_str(
            "Conflict: local changed since last sync (upload first or Force Download)",
        ),
    };
    let local_copy2 = clone_opt_string(&local_copy);
    let remote_copy2 = clone_opt_string(&remote_copy);
    let resp = SyncResponse {
        success: false,
        error: Some(msg),
        conflict: true,
        remote_state: Some(rs.duplicate()),
        local_state: duplicate_opt_state(ls),
        conflict_paths: Some(ConflictPaths { local_copy: local_copy2, remote_copy: remote_copy2 }),
        db_base64: None,
        applied: None,
    };
    ConflictEffects { local_copy, remote_copy, response: resp }
}

/// Copies an optional string.
fn clone_opt_string(s: &Option<String>) -> (r: Option<String>)
    ensures
        r == *s,
{
    match s {
        Some(t) => Some(t.clone()),
        None => None,
    }
}

/// Everything a verified download applies: the pre-replacement snapshot of
/// the current local bytes, the new local database content, the remote state
/// written to the local state file, and the response carrying the bytes.
#[derive(Debug)]
pub struct DownloadEffects {
    /// Where the current local bytes are snapshotted before replacement; the
    /// caller must fail the call if this write fails.
    pub backup_path: String,
    /// The pretty state body for the local state file.
    pub state_body_local: String,
    /// The downloaded bytes, base64, as the response returns them.
    pub db_b64: String,
    /// The successful response.
    pub response: SyncResponse,
}

/// Checks the downloaded bytes against the hash the remote state claims and
/// builds the download effects; a mismatch yields the refusal response and
/// nothing is written. On success the local state becomes the remote state,
/// whose hash is the hash of the bytes now in the local database.
pub fn download_effects(
    remote_db: &Vec<u8>,
    rs: &SyncState,
    local_db: &Vec<u8>,
    ls: &Option<SyncState>,
    now: i64,
    backups_dir: &str,
) -> (r: Result<DownloadEffects, SyncResponse>)
    ensures
        r is Ok <==> sha256_hex_of(remote_db@) == rs.sha256@,
        r matches Ok(e) ==> e.backup_path@ == path_join(
            backups_dir@,
            snapshot_name_of("local"@, now as int, sha256_hex_of(local_db@)),
        ) && e.state_body_local@ == state_json_pretty_of(*rs) && e.db_b64@ == b64_of(remote_db@)
            && e.response.success && e.response.error is None && !e.response.conflict
            && (e.response.remote_state matches Some(s) && state_eq(s, *rs))
            && (e.response.local_state matches Some(s) && state_eq(s, *rs))
            && e.response.conflict_paths is None && (e.response.db_base64 matches Some(d) && d@
            == b64_of(remote_db@)) && e.response.applied == Some(true),
        r matches Err(resp) ==> !resp.success && resp.conflict == false && (resp.error matches Some(
            m,
        ) && m@ == "Downloaded sha256 mismatch"@) && (resp.remote_state matches Some(s) && state_eq(
            s,
            *rs,
        )) && (resp.local_state is Some <==> ls is Some) && (resp.local_state matches Some(s)
            ==> state_eq(s, ls->Some_0)) && resp.conflict_paths is None && resp.db_base64 is None
            && resp.applied is None,
{
    let downloaded_sha = sha256_hex(remote_db);
    if !str_eq(downloaded_sha.as_str(), rs.sha256.as_str()) {
        return Err(
            SyncResponse {
                success: false,
                error: Some(String::from_str("Downloaded sha256 mismatch")),
                conflict: false,
                remote_state: Some(rs.duplicate()),
                local_state: duplicate_opt_state(ls),
                conflict_paths: None,
                db_base64: None,
                applied: None,
            },
        );
    }
    let local_sha = sha256_hex(local_db);
    let name = snapshot_name("local", now, local_sha.as_str());
    let backup_path = join_path(backups_dir, name.as_str());
    let state_body_local = render_state_pretty(rs);
    let db_b64 = b64_encode(remote_db);
    let db_b64_resp = db_b64.clone();
    let resp = SyncResponse {
        success: true,
        error: None,
        conflict: false,
        remote_state: Some(rs.duplicate()),
        local_state: Some(rs.duplicate()),
        conflict_paths: None,
        db_base64: Some(db_b64_resp),
        applied: Some(true),
    };
    Ok(DownloadEffects { backup_path, state_body_local, db_b64, response: resp })
}

/// After a successful upward sync the local state, the remote state and the
/// database hash agree: both sides record the fresh state, whose hash is the
/// hash of the pushed bytes.
pub proof fn lemma_sync_up_agreement(e: UploadEffects, db: Seq<u8>)
    requires
        e.new_state.sha256@ == sha256_hex_of(db),
        e.response.remote_state matches Some(s) && state_eq(s, e.new_state),
        e.response.local_state matches Some(s) && state_eq(s, e.new_state),
    ensures
        e.response.remote_state->Some_0.sha256@ == sha256_hex_of(db),
        e.response.local_state->Some_0.sha256@ == sha256_hex_of(db),
{
}

/// After a successful downward sync the local state, the remote state and
/// the database hash agree: the integrity check ties the remote state's hash
/// to the bytes now in the local database, and both response snapshots carry
/// the remote state.
pub proof fn lemma_sync_down_agreement(e: DownloadEffects, rs: SyncState, remote_db: Seq<u8>)
    requires
        sha256_hex_of(remote_db) == rs.sha256@,
        e.response.remote_state matches Some(s) && state_eq(s, rs),
        e.response.local_state matches Some(s) && state_eq(s, rs),
    ensures
        e.response.remote_state->Some_0.sha256@ == sha256_hex_of(remote_db),
        e.response.local_state->Some_0.sha256@ == sha256_hex_of(remote_db),
{
}

/// A quarantine name carries the first eight hex digits of the hash of the
/// bytes written under it: for the local side that holds outright; for the
/// remote side it holds whenever the fetched bytes hash to what the remote
/// state claims.
pub proof fn lemma_quarantine_prefix(side: Seq<char>, now: int, claimed: Seq<char>, bytes: Seq<u8>)
    requires
        claimed == sha256_hex_of(bytes),
    ensures
        snapshot_name_of(side, now, claimed) == side + seq!['-'] + crate::text::dec_of_i64(now)
            + seq!['-'] + sha256_hex_of(bytes).take(8) + ".sqlite"@,
{
}

} // verus!
