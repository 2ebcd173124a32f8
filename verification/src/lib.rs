//! Workspace synchronization engine: validates a local workspace layout,
//! plans atomic updates to its database file, packages and restores backup
//! archives, and reconciles the database with a remote WebDAV copy under an
//! advisory lock with conflict detection and quarantine.

mod archive;
mod b64;
mod clock;
mod dav;
mod digest;
mod docs;
mod fsplan;
mod json;
mod listing;
mod lock;
mod magic;
mod paths;
mod state;
mod sync;
mod text;
mod workspace;

pub use workspace::WorkspaceFault;
pub use workspace::root_check;
pub use workspace::copy_bytes;
pub use workspace::SavePlan;
pub use workspace::save_plan;
pub use workspace::OpenWorkspaceResult;
pub use workspace::open_workspace_result;
pub use workspace::BackupFault;
pub use workspace::create_backup_bundle;
pub use workspace::RestorePlan;
pub use workspace::restore_apply;
pub use workspace::lemma_restore_safety;
pub use workspace::ValidateProjectResult;
pub use workspace::validate_project_result;
pub use workspace::WriteProjectFault;
pub use workspace::WriteProjectEffects;
pub use workspace::write_project_plan;

pub use sync::SyncMode;
pub use sync::ConflictKind;
pub use sync::SyncAction;
pub use sync::ConflictPaths;
pub use sync::SyncResponse;
pub use sync::sync_decide;
pub use sync::SyncLocalPaths;
pub use sync::sync_local_paths;
pub use sync::stay_effects;
pub use sync::refresh_effects;
pub use sync::UploadEffects;
pub use sync::upload_effects;
pub use sync::ConflictEffects;
pub use sync::conflict_effects;
pub use sync::DownloadEffects;
pub use sync::download_effects;
pub use sync::lemma_sync_up_agreement;
pub use sync::lemma_sync_down_agreement;
pub use sync::lemma_quarantine_prefix;

pub use state::SyncState;
pub use state::LockInfo;
pub use docs::render_state_min;
pub use docs::render_state_pretty;
pub use docs::render_lock_min;
pub use docs::render_default_manifest;
pub use docs::render_backup_metadata;
pub use docs::parse_sync_state;
pub use docs::parse_lock_info;
pub use docs::lemma_state_round_trip;
pub use docs::lemma_lock_round_trip;
pub use lock::lock_decision;
pub use lock::fresh_lock;
pub use lock::acquire_lock_plan;
pub use lock::lemma_unparseable_lock_is_free;
pub use lock::lemma_own_lock_refreshes;
pub use lock::LOCK_TTL_MS;
pub use fsplan::FsStep;
pub use fsplan::atomic_write_plan;
pub use fsplan::lemma_tmp_path_distinct;
pub use fsplan::lemma_atomic_write_applies;
pub use fsplan::lemma_atomic_write_atomic;
pub use fsplan::lemma_save_applies;
pub use archive::build_backup_archive;
pub use archive::extract_db_from_backup;
pub use archive::ExtractFault;
pub use archive::lemma_backup_round_trip;
pub use listing::list_backups_core;

pub use b64::b64_encode;
pub use b64::b64_decode;
pub use clock::utc_now_ms;
pub use clock::local_now_parts;
pub use digest::sha256_hex;
pub use dav::mkcol_ok;
pub use dav::GetOutcome;
pub use dav::get_outcome;
pub use dav::put_ok;
pub use dav::move_ok;
pub use dav::delete_ok;
pub use dav::basic_auth_header;

pub use paths::join_base;
pub use paths::join_path;
pub use paths::workspace_paths;
pub use paths::project_paths;
pub use paths::str_trim_ws;
pub use paths::tmp_path_for;
pub use paths::is_valid_backup_name;
pub use paths::backup_file_for;
pub use paths::snapshot_name;
pub use paths::upload_tmp_name;
pub use paths::timestamp_backup_name;
pub use paths::clean_base_url;
pub use paths::remote_paths;
pub use paths::RemotePaths;
pub use paths::RemoteFault;

pub use text::str_to_chars;
pub use text::chars_to_string;
pub use text::str_lex_le;
pub use text::str_ends_with;
pub use text::str_has_char;
pub use text::str_has_dot_dot;
pub use magic::is_sqlite;
pub use magic::is_sqlite_bytes;
pub use magic::sqlite_magic;
