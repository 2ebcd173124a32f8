//! Path and URL derivation: local workspace paths, remote WebDAV URLs from a
//! base URL and a slug, temporary-file names, quarantine names, and the
//! timestamped backup archive names.

use vstd::prelude::*;
use crate::text::{
    push_chars, push_dec_i64, chars_to_string, char_is_trim_ws, dec_of, dec_of_i64, is_trim_ws,
    ends_with, str_ends_with,
};

verus! {

/// Removes from the end of `s` every character satisfying `p`.
pub open spec fn trim_end_matching(s: Seq<char>, p: spec_fn(char) -> bool) -> Seq<char>
    decreases s.len(),
{
    if s.len() > 0 && p(s.last()) {
        trim_end_matching(s.drop_last(), p)
    } else {
        s
    }
}

/// Removes from the start of `s` every character satisfying `p`.
pub open spec fn trim_start_matching(s: Seq<char>, p: spec_fn(char) -> bool) -> Seq<char>
    decreases s.len(),
{
    if s.len() > 0 && p(s.first()) {
        trim_start_matching(s.drop_first(), p)
    } else {
        s
    }
}

proof fn lemma_trim_end_take(s: Seq<char>, p: spec_fn(char) -> bool, k: int)
    requires
        0 <= k <= s.len(),
        forall|j: int| k <= j < s.len() ==> p(#[trigger] s[j]),
        k == 0 || !p(s[k - 1]),
    ensures
        trim_end_matching(s, p) == s.take(k),
    decreases s.len(),
{
    if s.len() > 0 && p(s.last()) {
        assert(k < s.len());
        let t = s.drop_last();
        assert(t =~= s.take(s.len() - 1));
        lemma_trim_end_take(t, p, k);
        assert(t.take(k) =~= s.take(k));
    } else {
        assert(k == s.len());
        assert(s.take(k) =~= s);
    }
}

proof fn lemma_trim_start_skip(s: Seq<char>, p: spec_fn(char) -> bool, k: int)
    requires
        0 <= k <= s.len(),
        forall|j: int| 0 <= j < k ==> p(#[trigger] s[j]),
        k == s.len() || !p(s[k]),
    ensures
        trim_start_matching(s, p) == s.skip(k),
    decreases s.len(),
{
    if s.len() > 0 && p(s.first()) {
        assert(k >= 1);
        let t = s.drop_first();
        lemma_trim_start_skip(t, p, k - 1);
        assert(t.skip(k - 1) =~= s.skip(k));
    } else {
        assert(k == 0);
        assert(s.skip(0) =~= s);
    }
}

/// A character is a slash.
pub open spec fn is_slash(c: char) -> bool {
    c == '/'
}

/// Trailing-whitespace and leading-whitespace trim of a string, as the slug
/// and the base URL are cleaned before use.
pub open spec fn trim_ws(s: Seq<char>) -> Seq<char> {
    trim_start_matching(trim_end_matching(s, |c: char| is_trim_ws(c)), |c: char| is_trim_ws(c))
}

/// Trims surrounding whitespace from a string slice.
pub fn str_trim_ws(s: &str) -> (r: String)
    ensures
        r@ == trim_ws(s@),
{
    let n = s.unicode_len();
    let mut e: usize = n;
    while e > 0 && char_is_trim_ws(s.get_char(e - 1))
        invariant
            e <= n,
            n == s@.len(),
            forall|j: int| e <= j < n ==> is_trim_ws(#[trigger] s@[j]),
        decreases e,
    {
        e -= 1;
    }
    let mut a: usize = 0;
    while a < e && char_is_trim_ws(s.get_char(a))
        invariant
            a <= e <= n,
            n == s@.len(),
            forall|j: int| 0 <= j < a ==> is_trim_ws(#[trigger] s@[j]),
        decreases e - a,
    {
        a += 1;
    }
    proof {
        lemma_trim_end_take(s@, |c: char| is_trim_ws(c), e as int);
        lemma_trim_start_skip(s@.take(e as int), |c: char| is_trim_ws(c), a as int);
    }
    let mut v: Vec<char> = Vec::new();
    let mut i: usize = a;
    while i < e
        invariant
            a <= i <= e <= n,
            n == s@.len(),
            v@ == s@.subrange(a as int, i as int),
        decreases e - i,
    {
        v.push(s.get_char(i));
        assert(v@ =~= s@.subrange(a as int, i + 1));
        i += 1;
    }
    assert(v@ =~= s@.take(e as int).skip(a as int));
    chars_to_string(&v)
}

/// The joined URL: the base without trailing slashes, one slash, the suffix
/// without leading slashes.
pub open spec fn join_base_of(base: Seq<char>, suffix: Seq<char>) -> Seq<char> {
    trim_end_matching(base, |c: char| is_slash(c)) + seq!['/'] + trim_start_matching(
        suffix,
        |c: char| is_slash(c),
    )
}

/// Joins a base URL and a suffix with exactly one slash between them.
pub fn join_base(base: &str, suffix: &str) -> (r: String)
    ensures
        r@ == join_base_of(base@, suffix@),
{
    let bn = base.unicode_len();
    let mut e: usize = bn;
    while e > 0 && base.get_char(e - 1) == '/'
        invariant
            e <= bn,
            bn == base@.len(),
            forall|j: int| e <= j < bn ==> is_slash(#[trigger] base@[j]),
        decreases e,
    {
        e -= 1;
    }
    let sn = suffix.unicode_len();
    let mut a: usize = 0;
    while a < sn && suffix.get_char(a) == '/'
        invariant
            a <= sn,
            sn == suffix@.len(),
            forall|j: int| 0 <= j < a ==> is_slash(#[trigger] suffix@[j]),
        decreases sn - a,
    {
        a += 1;
    }
    proof {
        lemma_trim_end_take(base@, |c: char| is_slash(c), e as int);
        lemma_trim_start_skip(suffix@, |c: char| is_slash(c), a as int);
    }
    let mut v: Vec<char> = Vec::new();
    let mut i: usize = 0;
    while i < e
        invariant
            i <= e <= bn,
            bn == base@.len(),
            v@ == base@.subrange(0, i as int),
        decreases e - i,
    {
        v.push(base.get_char(i));
        assert(v@ =~= base@.subrange(0, i + 1));
        i += 1;
    }
    v.push('/');
    let ghost mid = v@;
    let mut i: usize = a;
    while i < sn
        invariant
            a <= i <= sn,
            sn == suffix@.len(),
            v@ == mid + suffix@.subrange(a as int, i as int),
        decreases sn - i,
    {
        v.push(suffix.get_char(i));
        assert(v@ =~= mid + suffix@.subrange(a as int, i + 1));
        i += 1;
    }
    assert(v@ =~= join_base_of(base@, suffix@));
    chars_to_string(&v)
}

/// `root` joined with a final path component by a slash.
pub open spec fn path_join(root: Seq<char>, name: Seq<char>) -> Seq<char> {
    root + seq!['/'] + name
}

/// Joins a directory path and one component.
pub fn join_path(root: &str, name: &str) -> (r: String)
    ensures
        r@ == path_join(root@, name@),
{
    let mut v: Vec<char> = Vec::new();
    push_chars(&mut v, root);
    v.push('/');
    push_chars(&mut v, name);
    assert(v@ =~= path_join(root@, name@));
    chars_to_string(&v)
}

/// The manifest, database, backups-directory and media-directory paths of a
/// workspace root.
pub fn workspace_paths(root: &str) -> (r: (String, String, String, String))
    ensures
        r.0@ == path_join(root@, "workspace.json"@),
        r.1@ == path_join(root@, "database.sqlite"@),
        r.2@ == path_join(root@, "backups"@),
        r.3@ == path_join(root@, "media"@),
{
    (
        join_path(root, "workspace.json"),
        join_path(root, "database.sqlite"),
        join_path(root, "backups"),
        join_path(root, "media"),
    )
}

/// The manifest and database paths of a legacy project folder.
pub fn project_paths(root: &str) -> (r: (String, String))
    ensures
        r.0@ == path_join(root@, "project.json"@),
        r.1@ == path_join(root@, "db.sqlite"@),
{
    (join_path(root, "project.json"), join_path(root, "db.sqlite"))
}

/// The sibling temporary path used by the atomic writer: the target path with
/// `.tmp` appended.
pub open spec fn tmp_path_of(path: Seq<char>) -> Seq<char> {
    path + ".tmp"@
}

/// Appends the `.tmp` suffix to a path.
pub fn tmp_path_for(path: &str) -> (r: String)
    ensures
        r@ == tmp_path_of(path@),
{
    let mut v: Vec<char> = Vec::new();
    push_chars(&mut v, path);
    push_chars(&mut v, ".tmp");
    chars_to_string(&v)
}

/// The base URL after cleaning: surrounding whitespace and trailing slashes
/// removed.
pub open spec fn base_url_of(url: Seq<char>) -> Seq<char> {
    trim_end_matching(trim_ws(url), |c: char| is_slash(c))
}

/// Trims surrounding whitespace, then trailing slashes.
pub fn clean_base_url(url: &str) -> (r: String)
    ensures
        r@ == base_url_of(url@),
{
    let t = str_trim_ws(url);
    let s = t.as_str();
    let n = s.unicode_len();
    let mut e: usize = n;
    while e > 0 && s.get_char(e - 1) == '/'
        invariant
            e <= n,
            n == s@.len(),
            forall|j: int| e <= j < n ==> is_slash(#[trigger] s@[j]),
        decreases e,
    {
        e -= 1;
    }
    proof {
        lemma_trim_end_take(s@, |c: char| is_slash(c), e as int);
    }
    let mut v: Vec<char> = Vec::new();
    let mut i: usize = 0;
    while i < e
        invariant
            i <= e <= n,
            n == s@.len(),
            v@ == s@.subrange(0, i as int),
        decreases e - i,
    {
        v.push(s.get_char(i));
        assert(v@ =~= s@.subrange(0, i + 1));
        i += 1;
    }
    assert(v@ =~= s@.take(e as int));
    chars_to_string(&v)
}

/// The remote URLs a workspace synchronizes against.
#[derive(Debug)]
pub struct RemotePaths {
    /// The cleaned base URL.
    pub base: String,
    /// The shared top collection under the base.
    pub top_col: String,
    /// This workspace's collection.
    pub root: String,
    /// The sync metadata collection.
    pub sync_col: String,
    /// The remote state document.
    pub state_url: String,
    /// The remote lock document.
    pub lock_url: String,
    /// The remote database object.
    pub db_url: String,
}

/// Why remote paths could not be derived.
#[derive(Debug)]
pub enum RemoteFault {
    /// The slug is empty after trimming.
    MissingSlug,
    /// The base URL is empty after cleaning.
    MissingUrl,
}

/// The remote workspace collection for a base and a slug.
pub open spec fn remote_root_of(url: Seq<char>, slug: Seq<char>) -> Seq<char> {
    join_base_of(base_url_of(url), "RentikProSync/"@ + trim_ws(slug))
}

/// Derives every remote URL from a base URL and a slug; an empty slug or an
/// empty cleaned base is a validation fault, reported before anything else
/// happens.
pub fn remote_paths(url: &str, slug: &str) -> (r: Result<RemotePaths, RemoteFault>)
    ensures
        r is Err <==> trim_ws(slug@).len() == 0 || base_url_of(url@).len() == 0,
        r matches Err(RemoteFault::MissingSlug) <==> trim_ws(slug@).len() == 0,
        r matches Err(RemoteFault::MissingUrl) <==> trim_ws(slug@).len() > 0 && base_url_of(
            url@,
        ).len() == 0,
        r matches Ok(p) ==> p.base@ == base_url_of(url@) && p.top_col@ == join_base_of(
            base_url_of(url@),
            "RentikProSync"@,
        ) && p.root@ == remote_root_of(url@, slug@) && p.sync_col@ == join_base_of(
            remote_root_of(url@, slug@),
            "sync"@,
        ) && p.state_url@ == join_base_of(
            join_base_of(remote_root_of(url@, slug@), "sync"@),
            "state.json"@,
        ) && p.lock_url@ == join_base_of(
            join_base_of(remote_root_of(url@, slug@), "sync"@),
            "lock.json"@,
        ) && p.db_url@ == join_base_of(remote_root_of(url@, slug@), "db.sqlite"@),
{
    let slug_t = str_trim_ws(slug);
    if slug_t.as_str().unicode_len() == 0 {
        return Err(RemoteFault::MissingSlug);
    }
    let base = clean_base_url(url);
    if base.as_str().unicode_len() == 0 {
        return Err(RemoteFault::MissingUrl);
    }
    let mut sv: Vec<char> = Vec::new();
    push_chars(&mut sv, "RentikProSync/");
    push_chars(&mut sv, slug_t.as_str());
    let sub = chars_to_string(&sv);
    assert(sub@ =~= "RentikProSync/"@ + trim_ws(slug@));
    let top_col = join_base(base.as_str(), "RentikProSync");
    let root = join_base(base.as_str(), sub.as_str());
    let sync_col = join_base(root.as_str(), "sync");
    let state_url = join_base(sync_col.as_str(), "state.json");
    let lock_url = join_base(sync_col.as_str(), "lock.json");
    let db_url = join_base(root.as_str(), "db.sqlite");
    Ok(RemotePaths { base, top_col, root, sync_col, state_url, lock_url, db_url })
}

/// A backup name is accepted only when it contains no slash, no backslash and
/// no two consecutive dots.
pub open spec fn valid_backup_name(name: Seq<char>) -> bool {
    !crate::text::has_char(name, '/') && !crate::text::has_char(name, '\\')
        && !crate::text::has_dot_dot(name)
}

/// Decides whether a backup name is free of path traversal.
pub fn is_valid_backup_name(name: &str) -> (r: bool)
    ensures
        r == valid_backup_name(name@),
{
    !crate::text::str_has_char(name, '/') && !crate::text::str_has_char(name, '\\')
        && !crate::text::str_has_dot_dot(name)
}

/// The archive file a backup name resolves to: the name itself when it already
/// carries the `.rentikpro` extension, else the name with that extension.
pub open spec fn backup_file_of(name: Seq<char>) -> Seq<char> {
    if ends_with(name, ".rentikpro"@) {
        name
    } else {
        name + ".rentikpro"@
    }
}

/// Resolves a backup name to its archive file name.
pub fn backup_file_for(name: &str) -> (r: String)
    ensures
        r@ == backup_file_of(name@),
{
    if str_ends_with(name, ".rentikpro") {
        let mut v: Vec<char> = Vec::new();
        push_chars(&mut v, name);
        chars_to_string(&v)
    } else {
        let mut v: Vec<char> = Vec::new();
        push_chars(&mut v, name);
        push_chars(&mut v, ".rentikpro");
        chars_to_string(&v)
    }
}

/// A quarantine or pre-download snapshot file name:
/// `<side>-<millis>-<first eight hex digits>.sqlite`.
pub open spec fn snapshot_name_of(side: Seq<char>, now_ms: int, sha: Seq<char>) -> Seq<char> {
    side + seq!['-'] + dec_of_i64(now_ms) + seq!['-'] + sha.take(8) + ".sqlite"@
}

/// Builds a snapshot file name from a side label, a timestamp and a content
/// hash of at least eight characters.
pub fn snapshot_name(side: &str, now_ms: i64, sha: &str) -> (r: String)
    requires
        sha@.len() >= 8,
    ensures
        r@ == snapshot_name_of(side@, now_ms as int, sha@),
{
    let mut v: Vec<char> = Vec::new();
    push_chars(&mut v, side);
    v.push('-');
    push_dec_i64(&mut v, now_ms);
    v.push('-');
    let mut i: usize = 0;
    let ghost before = v@;
    while i < 8
        invariant
            i <= 8,
            sha@.len() >= 8,
            v@ == before + sha@.take(i as int),
        decreases 8 - i,
    {
        v.push(sha.get_char(i));
        assert(v@ =~= before + sha@.take(i + 1));
        i += 1;
    }
    push_chars(&mut v, ".sqlite");
    assert(v@ =~= snapshot_name_of(side@, now_ms as int, sha@));
    chars_to_string(&v)
}

/// The uniquely named temporary upload target:
/// `db.sqlite.uploading.<client id>.<millis>`.
pub open spec fn upload_tmp_name_of(client_id: Seq<char>, now_ms: int) -> Seq<char> {
    "db.sqlite.uploading."@ + client_id + seq!['.'] + dec_of_i64(now_ms)
}

/// Builds the temporary upload object name.
pub fn upload_tmp_name(client_id: &str, now_ms: i64) -> (r: String)
    ensures
        r@ == upload_tmp_name_of(client_id@, now_ms as int),
{
    let mut v: Vec<char> = Vec::new();
    push_chars(&mut v, "db.sqlite.uploading.");
    push_chars(&mut v, client_id);
    v.push('.');
    push_dec_i64(&mut v, now_ms);
    assert(v@ =~= upload_tmp_name_of(client_id@, now_ms as int));
    chars_to_string(&v)
}

/// A number zero-padded to two digits.
pub open spec fn zero_pad2(n: int) -> Seq<char> {
    if n < 10 {
        seq!['0'] + dec_of(n)
    } else {
        dec_of(n)
    }
}

/// A number zero-padded to three digits.
pub open spec fn zero_pad3(n: int) -> Seq<char> {
    if n < 10 {
        seq!['0', '0'] + dec_of(n)
    } else if n < 100 {
        seq!['0'] + dec_of(n)
    } else {
        dec_of(n)
    }
}

/// A number zero-padded to four digits; a negative number keeps its sign and
/// is padded to four characters in all, as the host formatter pads it.
pub open spec fn zero_pad4(n: int) -> Seq<char> {
    if n < 0 {
        seq!['-'] + zero_pad3(-n)
    } else if n < 10 {
        seq!['0', '0', '0'] + dec_of(n)
    } else if n < 100 {
        seq!['0', '0'] + dec_of(n)
    } else if n < 1000 {
        seq!['0'] + dec_of(n)
    } else {
        dec_of(n)
    }
}

fn push_pad2(v: &mut Vec<char>, n: u32)
    ensures
        final(v)@ == old(v)@ + zero_pad2(n as int),
{
    if n < 10 {
        v.push('0');
    }
    push_dec_i64(v, n as i64);
    assert(v@ =~= old(v)@ + zero_pad2(n as int));
}

fn push_pad3(v: &mut Vec<char>, n: u32)
    ensures
        final(v)@ == old(v)@ + zero_pad3(n as int),
{
    if n < 10 {
        v.push('0');
        v.push('0');
    } else if n < 100 {
        v.push('0');
    }
    push_dec_i64(v, n as i64);
    assert(v@ =~= old(v)@ + zero_pad3(n as int));
}

fn push_pad4(v: &mut Vec<char>, n: i32)
    ensures
        final(v)@ == old(v)@ + zero_pad4(n as int),
{
    if n < 0 {
        v.push('-');
        let m: u32 = if n == i32::MIN {
            2147483648u32
        } else {
            (-n) as u32
        };
        assert(m == -(n as int));
        push_pad3(v, m);
    } else {
        if n < 10 {
            v.push('0');
            v.push('0');
            v.push('0');
        } else if n < 100 {
            v.push('0');
            v.push('0');
        } else if n < 1000 {
            v.push('0');
        }
        push_dec_i64(v, n as i64);
    }
    assert(v@ =~= old(v)@ + zero_pad4(n as int));
}

/// The timestamped archive name
/// `<prefix><YYYY><MM><DD>_<HH><MM><SS>.<ext>`.
pub open spec fn backup_name_of(
    prefix: Seq<char>,
    y: int,
    mo: int,
    d: int,
    h: int,
    mi: int,
    s: int,
    ext: Seq<char>,
) -> Seq<char> {
    prefix + zero_pad4(y) + zero_pad2(mo) + zero_pad2(d) + seq!['_'] + zero_pad2(h) + zero_pad2(mi)
        + zero_pad2(s) + seq!['.'] + ext
}

/// Builds a timestamped backup archive name from wall-clock components.
pub fn timestamp_backup_name(
    prefix: &str,
    y: i32,
    mo: u32,
    d: u32,
    h: u32,
    mi: u32,
    s: u32,
    ext: &str,
) -> (r: String)
    ensures
        r@ == backup_name_of(
            prefix@,
            y as int,
            mo as int,
            d as int,
            h as int,
            mi as int,
            s as int,
            ext@,
        ),
{
    let mut v: Vec<char> = Vec::new();
    push_chars(&mut v, prefix);
    push_pad4(&mut v, y);
    push_pad2(&mut v, mo);
    push_pad2(&mut v, d);
    v.push('_');
    push_pad2(&mut v, h);
    push_pad2(&mut v, mi);
    push_pad2(&mut v, s);
    v.push('.');
    push_chars(&mut v, ext);
    assert(v@ =~= backup_name_of(
        prefix@,
        y as int,
        mo as int,
        d as int,
        h as int,
        mi as int,
        s as int,
        ext@,
    ));
    chars_to_string(&v)
}

} // verus!
