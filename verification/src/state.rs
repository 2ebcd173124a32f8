//! The two small JSON documents the sync protocol keeps: the per-side sync
//! state and the remote advisory lock.

use vstd::prelude::*;

verus! {

/// The content identity a side last confirmed synchronized.
#[derive(Debug)]
pub struct SyncState {
    /// Format version; written as 1.
    pub version: u32,
    /// Epoch milliseconds of the last confirmed synchronization.
    pub last_modified: i64,
    /// SHA-256 of the database bytes, 64 lowercase hex characters.
    pub sha256: String,
    /// The client that wrote this state.
    pub client_id: String,
}

/// The advisory lock object stored on the remote share.
#[derive(Debug)]
pub struct LockInfo {
    /// Format version; written as 1.
    pub version: u32,
    /// The client holding the lock.
    pub client_id: String,
    /// Epoch milliseconds when the lock was taken.
    pub created_at: i64,
    /// Epoch milliseconds when the lock lapses.
    pub expires_at: i64,
}

/// Field-for-field equality of two sync states.
pub open spec fn state_eq(a: SyncState, b: SyncState) -> bool {
    a.version == b.version && a.last_modified == b.last_modified && a.sha256@ == b.sha256@
        && a.client_id@ == b.client_id@
}

/// Field-for-field equality of two lock objects.
pub open spec fn lock_eq(a: LockInfo, b: LockInfo) -> bool {
    a.version == b.version && a.client_id@ == b.client_id@ && a.created_at == b.created_at
        && a.expires_at == b.expires_at
}

impl SyncState {
    /// Copies a state value.
    pub fn duplicate(&self) -> (r: SyncState)
        ensures
            state_eq(r, *self),
    {
        SyncState {
            version: self.version,
            last_modified: self.last_modified,
            sha256: self.sha256.clone(),
            client_id: self.client_id.clone(),
        }
    }
}

impl LockInfo {
    /// Copies a lock value.
    pub fn duplicate(&self) -> (r: LockInfo)
        ensures
            lock_eq(r, *self),
    {
        LockInfo {
            version: self.version,
            client_id: self.client_id.clone(),
            created_at: self.created_at,
            expires_at: self.expires_at,
        }
    }
}

/// Copies an optional state value.
pub fn duplicate_opt_state(s: &Option<SyncState>) -> (r: Option<SyncState>)
    ensures
        r is Some <==> s is Some,
        r matches Some(v) ==> state_eq(v, s->Some_0),
{
    match s {
        Some(v) => Some(v.duplicate()),
        None => None,
    }
}

} // verus!
