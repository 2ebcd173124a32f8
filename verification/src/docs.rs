//! The engine's JSON documents: sync state, lock, manifest and backup
//! metadata. Writing is exact to the character; reading mirrors a spec-level
//! parser and accepts surrounding whitespace and the documented key order.

use vstd::prelude::*;
use crate::json::{
    json_escape, push_json_escaped, ws_end, lit_at, parse_i64_at, parse_string_at, skip_ws,
    eat_lit, parse_i64, parse_string,
};
use crate::state::{SyncState, LockInfo};
use crate::text::{push_chars, push_dec_u64, push_dec_i64, chars_to_string, str_to_chars, dec_of, dec_of_i64};

verus! {

/// The compact rendering of a sync state, as it is sent to the remote side.
pub open spec fn state_json_min_of(st: SyncState) -> Seq<char> {
    "{\"version\":"@ + dec_of(st.version as int) + ",\"lastModified\":"@ + dec_of_i64(
        st.last_modified as int,
    ) + ",\"sha256\":\""@ + json_escape(st.sha256@) + "\",\"clientId\":\""@ + json_escape(
        st.client_id@,
    ) + "\"}"@
}

/// Renders a sync state compactly.
pub fn render_state_min(st: &SyncState) -> (r: String)
    ensures
        r@ == state_json_min_of(*st),
{
    let mut v: Vec<char> = Vec::new();
    push_chars(&mut v, "{\"version\":");
    push_dec_u64(&mut v, st.version as u64);
    push_chars(&mut v, ",\"lastModified\":");
    push_dec_i64(&mut v, st.last_modified);
    push_chars(&mut v, ",\"sha256\":\"");
    push_json_escaped(&mut v, st.sha256.as_str());
    push_chars(&mut v, "\",\"clientId\":\"");
    push_json_escaped(&mut v, st.client_id.as_str());
    push_chars(&mut v, "\"}");
    assert(v@ =~= state_json_min_of(*st));
    chars_to_string(&v)
}

/// The pretty rendering of a sync state, two-space indented, as it is kept
/// on disk.
pub open spec fn state_json_pretty_of(st: SyncState) -> Seq<char> {
    "{\n  \"version\": "@ + dec_of(st.version as int) + ",\n  \"lastModified\": "@ + dec_of_i64(
        st.last_modified as int,
    ) + ",\n  \"sha256\": \""@ + json_escape(st.sha256@) + "\",\n  \"clientId\": \""@
        + json_escape(st.client_id@) + "\"\n}"@
}

/// Renders a sync state pretty-printed.
pub fn render_state_pretty(st: &SyncState) -> (r: String)
    ensures
        r@ == state_json_pretty_of(*st),
{
    let mut v: Vec<char> = Vec::new();
    push_chars(&mut v, "{\n  \"version\": ");
    push_dec_u64(&mut v, st.version as u64);
    push_chars(&mut v, ",\n  \"lastModified\": ");
    push_dec_i64(&mut v, st.last_modified);
    push_chars(&mut v, ",\n  \"sha256\": \"");
    push_json_escaped(&mut v, st.sha256.as_str());
    push_chars(&mut v, "\",\n  \"clientId\": \"");
    push_json_escaped(&mut v, st.client_id.as_str());
    push_chars(&mut v, "\"\n}");
    assert(v@ =~= state_json_pretty_of(*st));
    chars_to_string(&v)
}

/// The compact rendering of a lock object.
pub open spec fn lock_json_min_of(lk: LockInfo) -> Seq<char> {
    "{\"version\":"@ + dec_of(lk.version as int) + ",\"clientId\":\""@ + json_escape(
        lk.client_id@,
    ) + "\",\"createdAt\":"@ + dec_of_i64(lk.created_at as int) + ",\"expiresAt\":"@ + dec_of_i64(
        lk.expires_at as int,
    ) + "}"@
}

/// Renders a lock object compactly.
pub fn render_lock_min(lk: &LockInfo) -> (r: String)
    ensures
        r@ == lock_json_min_of(*lk),
{
    let mut v: Vec<char> = Vec::new();
    push_chars(&mut v, "{\"version\":");
    push_dec_u64(&mut v, lk.version as u64);
    push_chars(&mut v, ",\"clientId\":\"");
    push_json_escaped(&mut v, lk.client_id.as_str());
    push_chars(&mut v, "\",\"createdAt\":");
    push_dec_i64(&mut v, lk.created_at);
    push_chars(&mut v, ",\"expiresAt\":");
    push_dec_i64(&mut v, lk.expires_at);
    push_chars(&mut v, "}");
    assert(v@ =~= lock_json_min_of(*lk));
    chars_to_string(&v)
}

/// The default manifest document for a fresh workspace, pretty-printed with
/// keys in alphabetical order and a fresh id derived from the clock.
pub open spec fn manifest_json_of(now_ms: int) -> Seq<char> {
    "{\n  \"createdAt\": "@ + dec_of_i64(now_ms) + ",\n  \"dbFile\": \"database.sqlite\",\n  \"id\": \"ws_"@
        + dec_of_i64(now_ms) + "\",\n  \"kind\": \"workspace\",\n  \"schema\": 1,\n  \"updatedAt\": "@
        + dec_of_i64(now_ms) + "\n}"@
}

/// Renders the default manifest for a fresh workspace.
pub fn render_default_manifest(now_ms: i64) -> (r: String)
    ensures
        r@ == manifest_json_of(now_ms as int),
{
    let mut v: Vec<char> = Vec::new();
    push_chars(&mut v, "{\n  \"createdAt\": ");
    push_dec_i64(&mut v, now_ms);
    push_chars(&mut v, ",\n  \"dbFile\": \"database.sqlite\",\n  \"id\": \"ws_");
    push_dec_i64(&mut v, now_ms);
    push_chars(&mut v, "\",\n  \"kind\": \"workspace\",\n  \"schema\": 1,\n  \"updatedAt\": ");
    push_dec_i64(&mut v, now_ms);
    push_chars(&mut v, "\n}");
    assert(v@ =~= manifest_json_of(now_ms as int));
    chars_to_string(&v)
}

/// The metadata descriptor bundled into a backup archive, pretty-printed
/// with keys in alphabetical order.
pub open spec fn metadata_json_of(now_ms: int) -> Seq<char> {
    "{\n  \"app\": \"RentikPro\",\n  \"createdAt\": "@ + dec_of_i64(now_ms)
        + ",\n  \"dbFile\": \"database.sqlite\",\n  \"format\": \"rentikpro-workspace-backup\"\n}"@
}

/// Renders the backup metadata descriptor.
pub fn render_backup_metadata(now_ms: i64) -> (r: String)
    ensures
        r@ == metadata_json_of(now_ms as int),
{
    let mut v: Vec<char> = Vec::new();
    push_chars(&mut v, "{\n  \"app\": \"RentikPro\",\n  \"createdAt\": ");
    push_dec_i64(&mut v, now_ms);
    push_chars(
        &mut v,
        ",\n  \"dbFile\": \"database.sqlite\",\n  \"format\": \"rentikpro-workspace-backup\"\n}",
    );
    assert(v@ =~= metadata_json_of(now_ms as int));
    chars_to_string(&v)
}

/// The spec-level parse of a sync state document: version, lastModified,
/// sha256 and clientId in that order, with any JSON whitespace between
/// tokens, and nothing but whitespace after the closing brace.
pub open spec fn parse_state_doc(s: Seq<char>) -> Option<(int, int, Seq<char>, Seq<char>)> {
    let i0 = ws_end(s, 0);
    if !lit_at(s, i0, "{"@) {
        None
    } else {
        let i1 = ws_end(s, i0 + "{"@.len());
        if !lit_at(s, i1, "\"version\""@) {
            None
        } else {
            let i2 = ws_end(s, i1 + "\"version\""@.len());
            if !lit_at(s, i2, ":"@) {
                None
            } else {
                match parse_i64_at(s, ws_end(s, i2 + ":"@.len())) {
                    None => None,
                    Some(pv) => if !(0 <= pv.0 <= 4294967295) {
                        None
                    } else {
                        let i4 = ws_end(s, pv.1);
                        if !lit_at(s, i4, ","@) {
                            None
                        } else {
                            parse_state_tail(s, ws_end(s, i4 + ","@.len()), pv.0)
                        }
                    },
                }
            }
        }
    }
}

/// The rest of a sync state document from the `"lastModified"` key on.
pub open spec fn parse_state_tail(s: Seq<char>, i5: int, version: int) -> Option<
    (int, int, Seq<char>, Seq<char>),
> {
    if !lit_at(s, i5, "\"lastModified\""@) {
        None
    } else {
        let i6 = ws_end(s, i5 + "\"lastModified\""@.len());
        if !lit_at(s, i6, ":"@) {
            None
        } else {
            match parse_i64_at(s, ws_end(s, i6 + ":"@.len())) {
                None => None,
                Some(pm) => {
                    let i8 = ws_end(s, pm.1);
                    if !lit_at(s, i8, ","@) {
                        None
                    } else {
                        let i9 = ws_end(s, i8 + ","@.len());
                        if !lit_at(s, i9, "\"sha256\""@) {
                            None
                        } else {
                            let i10 = ws_end(s, i9 + "\"sha256\""@.len());
                            if !lit_at(s, i10, ":"@) {
                                None
                            } else {
                                match parse_string_at(s, ws_end(s, i10 + ":"@.len())) {
                                    None => None,
                                    Some(ps) => {
                                        let i12 = ws_end(s, ps.1);
                                        if !lit_at(s, i12, ","@) {
                                            None
                                        } else {
                                            let i13 = ws_end(s, i12 + ","@.len());
                                            if !lit_at(s, i13, "\"clientId\""@) {
                                                None
                                            } else {
                                                let i14 = ws_end(
                                                    s,
                                                    i13 + "\"clientId\""@.len(),
                                                );
                                                if !lit_at(s, i14, ":"@) {
                                                    None
                                                } else {
                                                    match parse_string_at(
                                                        s,
                                                        ws_end(s, i14 + ":"@.len()),
                                                    ) {
                                                        None => None,
                                                        Some(pc) => {
                                                            let i16 = ws_end(s, pc.1);
                                                            if !lit_at(s, i16, "}"@) {
                                                                None
                                                            } else if ws_end(
                                                                s,
                                                                i16 + "}"@.len(),
                                                            ) != s.len() {
                                                                None
                                                            } else {
                                                                Some(
                                                                    (
                                                                        version,
                                                                        pm.0,
                                                                        ps.0,
                                                                        pc.0,
                                                                    ),
                                                                )
                                                            }
                                                        },
                                                    }
                                                }
                                            }
                                        }
                                    },
                                }
                            }
                        }
                    }
                }
            }
        }
    }
}

/// The spec-level parse of a lock document: version, clientId, createdAt and
/// expiresAt in that order, with any JSON whitespace between tokens.
pub open spec fn parse_lock_doc(s: Seq<char>) -> Option<(int, Seq<char>, int, int)> {
    let i0 = ws_end(s, 0);
    if !lit_at(s, i0, "{"@) {
        None
    } else {
        let i1 = ws_end(s, i0 + "{"@.len());
        if !lit_at(s, i1, "\"version\""@) {
            None
        } else {
            let i2 = ws_end(s, i1 + "\"version\""@.len());
            if !lit_at(s, i2, ":"@) {
                None
            } else {
                match parse_i64_at(s, ws_end(s, i2 + ":"@.len())) {
                    None => None,
                    Some(pv) => if !(0 <= pv.0 <= 4294967295) {
                        None
                    } else {
                        let i4 = ws_end(s, pv.1);
                        if !lit_at(s, i4, ","@) {
                            None
                        } else {
                            parse_lock_tail(s, ws_end(s, i4 + ","@.len()), pv.0)
                        }
                    },
                }
            }
        }
    }
}

/// The rest of a lock document from the `"clientId"` key on.
pub open spec fn parse_lock_tail(s: Seq<char>, i5: int, version: int) -> Option<
    (int, Seq<char>, int, int),
> {
    if !lit_at(s, i5, "\"clientId\""@) {
        None
    } else {
        let i6 = ws_end(s, i5 + "\"clientId\""@.len());
        if !lit_at(s, i6, ":"@) {
            None
        } else {
            match parse_string_at(s, ws_end(s, i6 + ":"@.len())) {
                None => None,
                Some(pc) => {
                    let i8 = ws_end(s, pc.1);
                    if !lit_at(s, i8, ","@) {
                        None
                    } else {
                        let i9 = ws_end(s, i8 + ","@.len());
                        if !lit_at(s, i9, "\"createdAt\""@) {
                            None
                        } else {
                            let i10 = ws_end(s, i9 + "\"createdAt\""@.len());
                            if !lit_at(s, i10, ":"@) {
                                None
                            } else {
                                match parse_i64_at(s, ws_end(s, i10 + ":"@.len())) {
                                    None => None,
                                    Some(pa) => {
                                        let i12 = ws_end(s, pa.1);
                                        if !lit_at(s, i12, ","@) {
                                            None
                                        } else {
                                            let i13 = ws_end(s, i12 + ","@.len());
                                            if !lit_at(s, i13, "\"expiresAt\""@) {
                                                None
                                            } else {
                                                let i14 = ws_end(
                                                    s,
                                                    i13 + "\"expiresAt\""@.len(),
                                                );
                                                if !lit_at(s, i14, ":"@) {
                                                    None
                                                } else {
                                                    match parse_i64_at(
                                                        s,
                                                        ws_end(s, i14 + ":"@.len()),
                                                    ) {
                                                        None => None,
                                                        Some(pe) => {
                                                            let i16 = ws_end(s, pe.1);
                                                            if !lit_at(s, i16, "}"@) {
                                                                None
                                                            } else if ws_end(
                                                                s,
                                                                i16 + "}"@.len(),
                                                            ) != s.len() {
                                                                None
                                                            } else {
                                                                Some(
                                                                    (
                                                                        version,
                                                                        pc.0,
                                                                        pa.0,
                                                                        pe.0,
                                                                    ),
                                                                )
                                                            }
                                                        },
                                                    }
                                                }
                                            }
                                        }
                                    },
                                }
                            }
                        }
                    }
                },
            }
        }
    }
}

/// Whitespace skipping stops on anything that is not whitespace.
proof fn lemma_ws_end_stop(s: Seq<char>, i: int)
    requires
        0 <= i <= s.len(),
        i == s.len() || !crate::json::is_json_ws(s[i]),
    ensures
        ws_end(s, i) == i,
{
}

/// Where each piece of a compact state rendering stands: the value pieces
/// at their offsets, and every skeleton token in place.
#[verifier::rlimit(100)]
proof fn lemma_state_layout(
    s: Seq<char>,
    d1: Seq<char>,
    d2: Seq<char>,
    v1: Seq<char>,
    v2: Seq<char>,
)
    requires
        s == "{\"version\":"@ + d1 + ",\"lastModified\":"@ + d2 + ",\"sha256\":\""@ + v1
            + "\",\"clientId\":\""@ + v2 + "\"}"@,
    ensures
        ({
            let o2 = 11 + d1.len() as int;
            let o3 = o2 + 16;
            let o4 = o3 + d2.len() as int;
            let o5 = o4 + 11;
            let o6 = o5 + v1.len() as int;
            let o7 = o6 + 14;
            let o8 = o7 + v2.len() as int;
            &&& s.len() == o8 + 2
            &&& s.subrange(11, o2) == d1
            &&& s.subrange(o3, o4) == d2
            &&& s.subrange(o5, o6) == v1
            &&& s.subrange(o7, o8) == v2
            &&& lit_at(s, 0, "{"@)
            &&& lit_at(s, 1, "\"version\""@)
            &&& lit_at(s, 10, ":"@)
            &&& lit_at(s, o2, ","@)
            &&& lit_at(s, o2 + 1, "\"lastModified\""@)
            &&& lit_at(s, o2 + 15, ":"@)
            &&& lit_at(s, o4, ","@)
            &&& lit_at(s, o4 + 1, "\"sha256\""@)
            &&& lit_at(s, o4 + 9, ":"@)
            &&& lit_at(s, o6 + 1, ","@)
            &&& lit_at(s, o6 + 2, "\"clientId\""@)
            &&& lit_at(s, o6 + 12, ":"@)
            &&& lit_at(s, o8 + 1, "}"@)
            &&& s[0] == '{'
            &&& s[1] == '"'
            &&& s[10] == ':'
            &&& s[o2] == ','
            &&& s[o2 + 1] == '"'
            &&& s[o2 + 15] == ':'
            &&& s[o4] == ','
            &&& s[o4 + 1] == '"'
            &&& s[o4 + 9] == ':'
            &&& s[o4 + 10] == '"'
            &&& s[o6] == '"'
            &&& s[o6 + 1] == ','
            &&& s[o6 + 2] == '"'
            &&& s[o6 + 12] == ':'
            &&& s[o6 + 13] == '"'
            &&& s[o8] == '"'
            &&& s[o8 + 1] == '}'
        }),
{
    reveal_strlit("{");
    reveal_strlit("\"version\"");
    reveal_strlit(":");
    reveal_strlit(",");
    reveal_strlit("\"lastModified\"");
    reveal_strlit("\"sha256\"");
    reveal_strlit("\"clientId\"");
    reveal_strlit("}");
    reveal_strlit("{\"version\":");
    reveal_strlit(",\"lastModified\":");
    reveal_strlit(",\"sha256\":\"");
    reveal_strlit("\",\"clientId\":\"");
    reveal_strlit("\"}");
    let o2 = 11 + d1.len() as int;
    let o3 = o2 + 16;
    let o4 = o3 + d2.len() as int;
    let o5 = o4 + 11;
    let o6 = o5 + v1.len() as int;
    let o7 = o6 + 14;
    let o8 = o7 + v2.len() as int;
    assert(s.subrange(11, o2) =~= d1);
    assert(s.subrange(o3, o4) =~= d2);
    assert(s.subrange(o5, o6) =~= v1);
    assert(s.subrange(o7, o8) =~= v2);
    assert(s.subrange(0, 1) =~= "{"@);
    assert(s.subrange(1, 10) =~= "\"version\""@);
    assert(s.subrange(10, 11) =~= ":"@);
    assert(s.subrange(o2, o2 + 1) =~= ","@);
    assert(s.subrange(o2 + 1, o2 + 15) =~= "\"lastModified\""@);
    assert(s.subrange(o2 + 15, o2 + 16) =~= ":"@);
    assert(s.subrange(o4, o4 + 1) =~= ","@);
    assert(s.subrange(o4 + 1, o4 + 9) =~= "\"sha256\""@);
    assert(s.subrange(o4 + 9, o4 + 10) =~= ":"@);
    assert(s.subrange(o6 + 1, o6 + 2) =~= ","@);
    assert(s.subrange(o6 + 2, o6 + 12) =~= "\"clientId\""@);
    assert(s.subrange(o6 + 12, o6 + 13) =~= ":"@);
    assert(s.subrange(o8 + 1, o8 + 2) =~= "}"@);
}

/// The state codec round-trips: the parser reads back from the compact
/// rendering exactly the state that was rendered, whenever the two string
/// fields hold only characters the renderer writes without escapes.
#[verifier::rlimit(100)]
pub proof fn lemma_state_round_trip(st: SyncState)
    requires
        forall|i: int|
            0 <= i < st.sha256@.len() ==> crate::json::is_plain_char(#[trigger] st.sha256@[i]),
        forall|i: int|
            0 <= i < st.client_id@.len() ==> crate::json::is_plain_char(
                #[trigger] st.client_id@[i],
            ),
    ensures
        parse_state_doc(state_json_min_of(st)) == Some(
            (st.version as int, st.last_modified as int, st.sha256@, st.client_id@),
        ),
{
    reveal_strlit("{");
    reveal_strlit("\"version\"");
    reveal_strlit(":");
    reveal_strlit(",");
    reveal_strlit("\"lastModified\"");
    reveal_strlit("\"sha256\"");
    reveal_strlit("\"clientId\"");
    reveal_strlit("}");
    let v1 = st.sha256@;
    let v2 = st.client_id@;
    crate::json::lemma_json_escape_plain(v1);
    crate::json::lemma_json_escape_plain(v2);
    let ver = st.version as int;
    let lm = st.last_modified as int;
    let d1 = dec_of(ver);
    let d2 = dec_of_i64(lm);
    crate::json::lemma_dec_of_digits(ver);
    let s = state_json_min_of(st);
    lemma_state_layout(s, d1, d2, v1, v2);
    let o2 = 11 + d1.len() as int;
    let o3 = o2 + 16;
    let o4 = o3 + d2.len() as int;
    let o5 = o4 + 11;
    let o6 = o5 + v1.len() as int;
    let o7 = o6 + 14;
    let o8 = o7 + v2.len() as int;
    // no whitespace stands between tokens
    lemma_ws_end_stop(s, 0);
    lemma_ws_end_stop(s, 1);
    lemma_ws_end_stop(s, 10);
    assert(s.subrange(11, o2)[0] == s[11]);
    assert(crate::json::is_digit(s[11]));
    lemma_ws_end_stop(s, 11);
    lemma_ws_end_stop(s, o2);
    lemma_ws_end_stop(s, o2 + 1);
    lemma_ws_end_stop(s, o2 + 15);
    if lm >= 0 {
        crate::json::lemma_dec_of_digits(lm);
        assert(s.subrange(o3, o4)[0] == s[o3]);
        assert(crate::json::is_digit(s[o3]));
    } else {
        assert(s.subrange(o3, o4)[0] == s[o3]);
        assert(s[o3] == '-');
    }
    lemma_ws_end_stop(s, o3);
    lemma_ws_end_stop(s, o4);
    lemma_ws_end_stop(s, o4 + 1);
    lemma_ws_end_stop(s, o4 + 9);
    lemma_ws_end_stop(s, o4 + 10);
    lemma_ws_end_stop(s, o6 + 1);
    lemma_ws_end_stop(s, o6 + 2);
    lemma_ws_end_stop(s, o6 + 12);
    lemma_ws_end_stop(s, o6 + 13);
    lemma_ws_end_stop(s, o8 + 1);
    lemma_ws_end_stop(s, o8 + 2);
    // the two numbers read back
    assert(dec_of_i64(ver) == d1);
    crate::json::lemma_parse_i64_of_dec(s, 11, ver);
    assert(parse_i64_at(s, 11) == Some((ver, o2)));
    crate::json::lemma_parse_i64_of_dec(s, o3, lm);
    assert(parse_i64_at(s, o3) == Some((lm, o4)));
    // the two strings read back
    assert forall|j: int| o5 <= j < o6 implies crate::json::is_plain_char(#[trigger] s[j]) by {
        assert(s.subrange(o5, o6)[j - o5] == v1[j - o5]);
    }
    crate::json::lemma_parse_str_body_plain(s, o5, o6);
    assert(parse_string_at(s, o4 + 10) == Some((v1, o6 + 1)));
    assert forall|j: int| o7 <= j < o8 implies crate::json::is_plain_char(#[trigger] s[j]) by {
        assert(s.subrange(o7, o8)[j - o7] == v2[j - o7]);
    }
    crate::json::lemma_parse_str_body_plain(s, o7, o8);
    assert(parse_string_at(s, o6 + 13) == Some((v2, o8 + 1)));
    assert(parse_state_tail(s, o2 + 1, ver) == Some((ver, lm, v1, v2)));
}

/// Where each piece of a compact lock rendering stands.
#[verifier::rlimit(100)]
proof fn lemma_lock_layout(
    s: Seq<char>,
    d1: Seq<char>,
    v1: Seq<char>,
    d2: Seq<char>,
    d3: Seq<char>,
)
    requires
        s == "{\"version\":"@ + d1 + ",\"clientId\":\""@ + v1 + "\",\"createdAt\":"@ + d2
            + ",\"expiresAt\":"@ + d3 + "}"@,
    ensures
        ({
            let o2 = 11 + d1.len() as int;
            let o3 = o2 + 13;
            let o4 = o3 + v1.len() as int;
            let o5 = o4 + 14;
            let o6 = o5 + d2.len() as int;
            let o7 = o6 + 13;
            let o8 = o7 + d3.len() as int;
            &&& s.len() == o8 + 1
            &&& s.subrange(11, o2) == d1
            &&& s.subrange(o3, o4) == v1
            &&& s.subrange(o5, o6) == d2
            &&& s.subrange(o7, o8) == d3
            &&& lit_at(s, 0, "{"@)
            &&& lit_at(s, 1, "\"version\""@)
            &&& lit_at(s, 10, ":"@)
            &&& lit_at(s, o2, ","@)
            &&& lit_at(s, o2 + 1, "\"clientId\""@)
            &&& lit_at(s, o2 + 11, ":"@)
            &&& lit_at(s, o4 + 1, ","@)
            &&& lit_at(s, o4 + 2, "\"createdAt\""@)
            &&& lit_at(s, o4 + 13, ":"@)
            &&& lit_at(s, o6, ","@)
            &&& lit_at(s, o6 + 1, "\"expiresAt\""@)
            &&& lit_at(s, o6 + 12, ":"@)
            &&& lit_at(s, o8, "}"@)
            &&& s[0] == '{'
            &&& s[1] == '"'
            &&& s[10] == ':'
            &&& s[o2] == ','
            &&& s[o2 + 1] == '"'
            &&& s[o2 + 11] == ':'
            &&& s[o2 + 12] == '"'
            &&& s[o4] == '"'
            &&& s[o4 + 1] == ','
            &&& s[o4 + 2] == '"'
            &&& s[o4 + 13] == ':'
            &&& s[o6] == ','
            &&& s[o6 + 1] == '"'
            &&& s[o6 + 12] == ':'
            &&& s[o8] == '}'
        }),
{
    reveal_strlit("{");
    reveal_strlit("\"version\"");
    reveal_strlit(":");
    reveal_strlit(",");
    reveal_strlit("\"clientId\"");
    reveal_strlit("\"createdAt\"");
    reveal_strlit("\"expiresAt\"");
    reveal_strlit("}");
    reveal_strlit("{\"version\":");
    reveal_strlit(",\"clientId\":\"");
    reveal_strlit("\",\"createdAt\":");
    reveal_strlit(",\"expiresAt\":");
    let o2 = 11 + d1.len() as int;
    let o3 = o2 + 13;
    let o4 = o3 + v1.len() as int;
    let o5 = o4 + 14;
    let o6 = o5 + d2.len() as int;
    let o7 = o6 + 13;
    let o8 = o7 + d3.len() as int;
    assert(s.subrange(11, o2) =~= d1);
    assert(s.subrange(o3, o4) =~= v1);
    assert(s.subrange(o5, o6) =~= d2);
    assert(s.subrange(o7, o8) =~= d3);
    assert(s.subrange(0, 1) =~= "{"@);
    assert(s.subrange(1, 10) =~= "\"version\""@);
    assert(s.subrange(10, 11) =~= ":"@);
    assert(s.subrange(o2, o2 + 1) =~= ","@);
    assert(s.subrange(o2 + 1, o2 + 11) =~= "\"clientId\""@);
    assert(s.subrange(o2 + 11, o2 + 12) =~= ":"@);
    assert(s.subrange(o4 + 1, o4 + 2) =~= ","@);
    assert(s.subrange(o4 + 2, o4 + 13) =~= "\"createdAt\""@);
    assert(s.subrange(o4 + 13, o4 + 14) =~= ":"@);
    assert(s.subrange(o6, o6 + 1) =~= ","@);
    assert(s.subrange(o6 + 1, o6 + 12) =~= "\"expiresAt\""@);
    assert(s.subrange(o6 + 12, o6 + 13) =~= ":"@);
    assert(s.subrange(o8, o8 + 1) =~= "}"@);
}

/// The lock codec round-trips: the parser reads back from the compact
/// rendering exactly the lock that was rendered, whenever the client
/// identifier holds only characters the renderer writes without escapes.
#[verifier::rlimit(100)]
pub proof fn lemma_lock_round_trip(lk: LockInfo)
    requires
        forall|i: int|
            0 <= i < lk.client_id@.len() ==> crate::json::is_plain_char(
                #[trigger] lk.client_id@[i],
            ),
    ensures
        parse_lock_doc(lock_json_min_of(lk)) == Some(
            (lk.version as int, lk.client_id@, lk.created_at as int, lk.expires_at as int),
        ),
{
    reveal_strlit("{");
    reveal_strlit("\"version\"");
    reveal_strlit(":");
    reveal_strlit(",");
    reveal_strlit("\"clientId\"");
    reveal_strlit("\"createdAt\"");
    reveal_strlit("\"expiresAt\"");
    reveal_strlit("}");
    let v1 = lk.client_id@;
    crate::json::lemma_json_escape_plain(v1);
    let ver = lk.version as int;
    let ca = lk.created_at as int;
    let ea = lk.expires_at as int;
    let d1 = dec_of(ver);
    let d2 = dec_of_i64(ca);
    let d3 = dec_of_i64(ea);
    crate::json::lemma_dec_of_digits(ver);
    let s = lock_json_min_of(lk);
    lemma_lock_layout(s, d1, v1, d2, d3);
    let o2 = 11 + d1.len() as int;
    let o3 = o2 + 13;
    let o4 = o3 + v1.len() as int;
    let o5 = o4 + 14;
    let o6 = o5 + d2.len() as int;
    let o7 = o6 + 13;
    let o8 = o7 + d3.len() as int;
    // no whitespace stands between tokens
    lemma_ws_end_stop(s, 0);
    lemma_ws_end_stop(s, 1);
    lemma_ws_end_stop(s, 10);
    assert(s.subrange(11, o2)[0] == s[11]);
    assert(crate::json::is_digit(s[11]));
    lemma_ws_end_stop(s, 11);
    lemma_ws_end_stop(s, o2);
    lemma_ws_end_stop(s, o2 + 1);
    lemma_ws_end_stop(s, o2 + 11);
    lemma_ws_end_stop(s, o2 + 12);
    lemma_ws_end_stop(s, o4 + 1);
    lemma_ws_end_stop(s, o4 + 2);
    lemma_ws_end_stop(s, o4 + 13);
    if ca >= 0 {
        crate::json::lemma_dec_of_digits(ca);
        assert(s.subrange(o5, o6)[0] == s[o5]);
        assert(crate::json::is_digit(s[o5]));
    } else {
        assert(s.subrange(o5, o6)[0] == s[o5]);
        assert(s[o5] == '-');
    }
    lemma_ws_end_stop(s, o5);
    lemma_ws_end_stop(s, o6);
    lemma_ws_end_stop(s, o6 + 1);
    lemma_ws_end_stop(s, o6 + 12);
    if ea >= 0 {
        crate::json::lemma_dec_of_digits(ea);
        assert(s.subrange(o7, o8)[0] == s[o7]);
        assert(crate::json::is_digit(s[o7]));
    } else {
        assert(s.subrange(o7, o8)[0] == s[o7]);
        assert(s[o7] == '-');
    }
    lemma_ws_end_stop(s, o7);
    lemma_ws_end_stop(s, o8);
    lemma_ws_end_stop(s, o8 + 1);
    // the numbers read back
    assert(dec_of_i64(ver) == d1);
    crate::json::lemma_parse_i64_of_dec(s, 11, ver);
    assert(parse_i64_at(s, 11) == Some((ver, o2)));
    crate::json::lemma_parse_i64_of_dec(s, o5, ca);
    assert(parse_i64_at(s, o5) == Some((ca, o6)));
    crate::json::lemma_parse_i64_of_dec(s, o7, ea);
    assert(parse_i64_at(s, o7) == Some((ea, o8)));
    // the client identifier reads back
    assert forall|j: int| o3 <= j < o4 implies crate::json::is_plain_char(#[trigger] s[j]) by {
        assert(s.subrange(o3, o4)[j - o3] == v1[j - o3]);
    }
    crate::json::lemma_parse_str_body_plain(s, o3, o4);
    assert(parse_string_at(s, o2 + 12) == Some((v1, o4 + 1)));
    assert(parse_lock_tail(s, o2 + 1, ver) == Some((ver, v1, ca, ea)));
}

/// Parses a sync state document; any malformed document reads as absent.
pub fn parse_sync_state(text: &str) -> (r: Option<SyncState>)
    ensures
        r is Some <==> parse_state_doc(text@) is Some,
        r matches Some(st) ==> parse_state_doc(text@) matches Some(q) && st.version as int == q.0
            && st.last_modified as int == q.1 && st.sha256@ == q.2 && st.client_id@ == q.3,
{
    let chars = str_to_chars(text);
    let n = chars.len();
    let i0 = skip_ws(&chars, 0);
    let a0 = match eat_lit(&chars, i0, "{") {
        Some(a) => a,
        None => {
            return None;
        },
    };
    let i1 = skip_ws(&chars, a0);
    let a1 = match eat_lit(&chars, i1, "\"version\"") {
        Some(a) => a,
        None => {
            return None;
        },
    };
    let i2 = skip_ws(&chars, a1);
    let a2 = match eat_lit(&chars, i2, ":") {
        Some(a) => a,
        None => {
            return None;
        },
    };
    let i3 = skip_ws(&chars, a2);
    let (ver, q1) = match parse_i64(&chars, i3) {
        Some(p) => p,
        None => {
            return None;
        },
    };
    if ver < 0 || ver > 4294967295 {
        return None;
    }
    let i4 = skip_ws(&chars, q1);
    let a4 = match eat_lit(&chars, i4, ",") {
        Some(a) => a,
        None => {
            return None;
        },
    };
    let i5 = skip_ws(&chars, a4);
    let a5 = match eat_lit(&chars, i5, "\"lastModified\"") {
        Some(a) => a,
        None => {
            return None;
        },
    };
    let i6 = skip_ws(&chars, a5);
    let a6 = match eat_lit(&chars, i6, ":") {
        Some(a) => a,
        None => {
            return None;
        },
    };
    let i7 = skip_ws(&chars, a6);
    let (lm, q2) = match parse_i64(&chars, i7) {
        Some(p) => p,
        None => {
            return None;
        },
    };
    let i8 = skip_ws(&chars, q2);
    let a8 = match eat_lit(&chars, i8, ",") {
        Some(a) => a,
        None => {
            return None;
        },
    };
    let i9 = skip_ws(&chars, a8);
    let a9 = match eat_lit(&chars, i9, "\"sha256\"") {
        Some(a) => a,
        None => {
            return None;
        },
    };
    let i10 = skip_ws(&chars, a9);
    let a10 = match eat_lit(&chars, i10, ":") {
        Some(a) => a,
        None => {
            return None;
        },
    };
    let i11 = skip_ws(&chars, a10);
    let (sha_chars, q3) = match parse_string(&chars, i11) {
        Some(p) => p,
        None => {
            return None;
        },
    };
    let i12 = skip_ws(&chars, q3);
    let a12 = match eat_lit(&chars, i12, ",") {
        Some(a) => a,
        None => {
            return None;
        },
    };
    let i13 = skip_ws(&chars, a12);
    let a13 = match eat_lit(&chars, i13, "\"clientId\"") {
        Some(a) => a,
        None => {
            return None;
        },
    };
    let i14 = skip_ws(&chars, a13);
    let a14 = match eat_lit(&chars, i14, ":") {
        Some(a) => a,
        None => {
            return None;
        },
    };
    let i15 = skip_ws(&chars, a14);
    let (cid_chars, q4) = match parse_string(&chars, i15) {
        Some(p) => p,
        None => {
            return None;
        },
    };
    let i16 = skip_ws(&chars, q4);
    let a16 = match eat_lit(&chars, i16, "}") {
        Some(a) => a,
        None => {
            return None;
        },
    };
    let i17 = skip_ws(&chars, a16);
    if i17 != n {
        return None;
    }
    Some(
        SyncState {
            version: ver as u32,
            last_modified: lm,
            sha256: chars_to_string(&sha_chars),
            client_id: chars_to_string(&cid_chars),
        },
    )
}

/// Parses a lock document; any malformed document reads as absent.
pub fn parse_lock_info(text: &str) -> (r: Option<LockInfo>)
    ensures
        r is Some <==> parse_lock_doc(text@) is Some,
        r matches Some(lk) ==> parse_lock_doc(text@) matches Some(q) && lk.version as int == q.0
            && lk.client_id@ == q.1 && lk.created_at as int == q.2 && lk.expires_at as int == q.3,
{
    let chars = str_to_chars(text);
    let n = chars.len();
    let i0 = skip_ws(&chars, 0);
    let a0 = match eat_lit(&chars, i0, "{") {
        Some(a) => a,
        None => {
            return None;
        },
    };
    let i1 = skip_ws(&chars, a0);
    let a1 = match eat_lit(&chars, i1, "\"version\"") {
        Some(a) => a,
        None => {
            return None;
        },
    };
    let i2 = skip_ws(&chars, a1);
    let a2 = match eat_lit(&chars, i2, ":") {
        Some(a) => a,
        None => {
            return None;
        },
    };
    let i3 = skip_ws(&chars, a2);
    let (ver, q1) = match parse_i64(&chars, i3) {
        Some(p) => p,
        None => {
            return None;
        },
    };
    if ver < 0 || ver > 4294967295 {
        return None;
    }
    let i4 = skip_ws(&chars, q1);
    let a4 = match eat_lit(&chars, i4, ",") {
        Some(a) => a,
        None => {
            return None;
        },
    };
    let i5 = skip_ws(&chars, a4);
    let a5 = match eat_lit(&chars, i5, "\"clientId\"") {
        Some(a) => a,
        None => {
            return None;
        },
    };
    let i6 = skip_ws(&chars, a5);
    let a6 = match eat_lit(&chars, i6, ":") {
        Some(a) => a,
        None => {
            return None;
        },
    };
    let i7 = skip_ws(&chars, a6);
    let (cid_chars, q2) = match parse_string(&chars, i7) {
        Some(p) => p,
        None => {
            return None;
        },
    };
    let i8 = skip_ws(&chars, q2);
    let a8 = match eat_lit(&chars, i8, ",") {
        Some(a) => a,
        None => {
            return None;
        },
    };
    let i9 = skip_ws(&chars, a8);
    let a9 = match eat_lit(&chars, i9, "\"createdAt\"") {
        Some(a) => a,
        None => {
            return None;
        },
    };
    let i10 = skip_ws(&chars, a9);
    let a10 = match eat_lit(&chars, i10, ":") {
        Some(a) => a,
        None => {
            return None;
        },
    };
    let i11 = skip_ws(&chars, a10);
    let (ca, q3) = match parse_i64(&chars, i11) {
        Some(p) => p,
        None => {
            return None;
        },
    };
    let i12 = skip_ws(&chars, q3);
    let a12 = match eat_lit(&chars, i12, ",") {
        Some(a) => a,
        None => {
            return None;
        },
    };
    let i13 = skip_ws(&chars, a12);
    let a13 = match eat_lit(&chars, i13, "\"expiresAt\"") {
        Some(a) => a,
        None => {
            return None;
        },
    };
    let i14 = skip_ws(&chars, a13);
    let a14 = match eat_lit(&chars, i14, ":") {
        Some(a) => a,
        None => {
            return None;
        },
    };
    let i15 = skip_ws(&chars, a14);
    let (ea, q4) = match parse_i64(&chars, i15) {
        Some(p) => p,
        None => {
            return None;
        },
    };
    let i16 = skip_ws(&chars, q4);
    let a16 = match eat_lit(&chars, i16, "}") {
        Some(a) => a,
        None => {
            return None;
        },
    };
    let i17 = skip_ws(&chars, a16);
    if i17 != n {
        return None;
    }
    Some(
        LockInfo {
            version: ver as u32,
            client_id: chars_to_string(&cid_chars),
            created_at: ca,
            expires_at: ea,
        },
    )
}

} // verus!
