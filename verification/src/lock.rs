//! The advisory lock over the remote share: whether an existing lock object
//! blocks acquisition, and the fresh lock written on takeover.

use vstd::prelude::*;
use crate::state::LockInfo;
use crate::docs::{parse_lock_doc, parse_lock_info, render_lock_min, lock_json_min_of};
use crate::text::str_eq;

verus! {

/// The lock's time to live, in milliseconds.
pub const LOCK_TTL_MS: i64 = 120000;

/// An existing lock does not block acquisition when it belongs to this
/// client or has lapsed; an absent lock never blocks.
pub open spec fn lock_is_free_for(existing: Option<LockInfo>, client_id: Seq<char>, now: int)
    -> bool {
    match existing {
        None => true,
        Some(lk) => lk.client_id@ == client_id || now >= lk.expires_at,
    }
}

/// The lock body read from the share does not block acquisition: absent and
/// unparseable bodies never block; a parsed lock blocks only while another
/// client holds it unexpired.
pub open spec fn lock_text_is_free_for(existing: Option<Seq<char>>, client_id: Seq<char>, now: int)
    -> bool {
    match existing {
        None => true,
        Some(t) => match parse_lock_doc(t) {
            None => true,
            Some(q) => q.1 == client_id || now >= q.3,
        },
    }
}

/// The expiry of a fresh lock: `now` plus the time to live, saturated at the
/// top of the range.
pub open spec fn lock_expiry_of(now: int) -> int {
    if now + LOCK_TTL_MS > i64::MAX {
        i64::MAX as int
    } else {
        now + LOCK_TTL_MS
    }
}

/// Decides whether an existing (parsed) lock blocks acquisition.
pub fn lock_decision(existing: &Option<LockInfo>, client_id: &str, now: i64) -> (r: bool)
    ensures
        r == lock_is_free_for(*existing, client_id@, now as int),
{
    match existing {
        None => true,
        Some(lk) => str_eq(lk.client_id.as_str(), client_id) || now >= lk.expires_at,
    }
}

/// A fresh lock for this client, valid for the time to live.
pub fn fresh_lock(client_id: &str, now: i64) -> (r: LockInfo)
    ensures
        r.version == 1,
        r.client_id@ == client_id@,
        r.created_at == now,
        r.expires_at as int == lock_expiry_of(now as int),
        r.expires_at >= now,
{
    let expires: i64 = if now > i64::MAX - LOCK_TTL_MS {
        i64::MAX
    } else {
        now + LOCK_TTL_MS
    };
    LockInfo { version: 1, client_id: client_id.to_owned(), created_at: now, expires_at: expires }
}

/// The acquisition step, given the lock body read from the share (absent on
/// a not-found read). Returns the fresh lock and its compact JSON body to
/// write when acquisition proceeds, and nothing when another live client
/// holds the lock.
pub fn acquire_lock_plan(existing_body: &Option<String>, client_id: &str, now: i64) -> (r: Option<
    (LockInfo, String),
>)
    ensures
        r is Some <==> lock_text_is_free_for(
            match *existing_body {
                Some(t) => Some(t@),
                None => None,
            },
            client_id@,
            now as int,
        ),
        r matches Some(p) ==> p.0.version == 1 && p.0.client_id@ == client_id@ && p.0.created_at
            == now && p.0.expires_at as int == lock_expiry_of(now as int) && p.1@
            == lock_json_min_of(p.0),
{
    let parsed: Option<LockInfo> = match existing_body {
        Some(t) => parse_lock_info(t.as_str()),
        None => None,
    };
    if !lock_decision(&parsed, client_id, now) {
        return None;
    }
    let lk = fresh_lock(client_id, now);
    let body = render_lock_min(&lk);
    Some((lk, body))
}

/// An absent or unparseable lock object is treated as free: acquisition
/// always proceeds past it.
pub proof fn lemma_unparseable_lock_is_free(body: Option<Seq<char>>, client_id: Seq<char>, now: int)
    requires
        body matches Some(t) ==> parse_lock_doc(t) is None,
    ensures
        lock_text_is_free_for(body, client_id, now),
{
}

/// A lock held by this client never blocks it, and re-acquisition refreshes
/// the expiry to the full time to live from `now`.
pub proof fn lemma_own_lock_refreshes(lk: LockInfo, client_id: Seq<char>, now: int)
    requires
        lk.client_id@ == client_id,
        now <= i64::MAX,
    ensures
        lock_is_free_for(Some(lk), client_id, now),
        lock_expiry_of(now) >= now,
{
}

} // verus!
