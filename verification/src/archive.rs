//! The backup archiver: packs the database, the manifest and a metadata
//! descriptor into a deflate-compressed archive, and extracts the database
//! back out. The archive container is handled by the `zip` crate behind
//! trusted items; which entries stand in the archive, and with which bytes,
//! is verified.

use vstd::prelude::*;
use std::io::Write;
use vstd::string::StringSliceAdditionalSpecFns;
use crate::magic::{is_sqlite, is_sqlite_bytes};
use crate::text::lemma_encode_utf8_len;

verus! {

/// An in-memory archive writer; the `zip` crate's writer over a byte
/// cursor, opaque to the verifier and described by `zw_log` alone.
#[verifier::external_body]
pub struct ArchiveWriter {
    inner: zip::ZipWriter<std::io::Cursor<Vec<u8>>>,
}

/// What an archive writer holds: the entries written so far, in order, each
/// with its name and its data.
pub uninterp spec fn zw_log(w: ArchiveWriter) -> Seq<(Seq<char>, Seq<u8>)>;

/// What an archive maps a name to: the data of the entry of that name, or
/// nothing when no entry carries it.
pub uninterp spec fn zip_entry(archive: Seq<u8>, name: Seq<char>) -> Option<Seq<u8>>;

/// Whether a byte buffer is an archive the reader accepts; everything the
/// writer finishes is.
pub uninterp spec fn zip_readable(archive: Seq<u8>) -> bool;

/// The entry a backup archive's database resolves to: the standard name,
/// falling back to the legacy name.
pub open spec fn backup_db_entry(archive: Seq<u8>) -> Option<Seq<u8>> {
    if zip_entry(archive, "database.sqlite"@) is Some {
        zip_entry(archive, "database.sqlite"@)
    } else {
        zip_entry(archive, "db.sqlite"@)
    }
}

/// The entry a written log answers a name with: the last entry of that name.
pub open spec fn log_lookup(log: Seq<(Seq<char>, Seq<u8>)>, name: Seq<char>) -> Option<Seq<u8>>
    decreases log.len(),
{
    if log.len() == 0 {
        None
    } else if log.last().0 == name {
        Some(log.last().1)
    } else {
        log_lookup(log.drop_last(), name)
    }
}

/// Relies on `zip::ZipWriter::new`: a fresh writer holds no entries.
#[verifier::external_body]
fn zw_new() -> (w: ArchiveWriter)
    ensures
        zw_log(w) == Seq::<(Seq<char>, Seq<u8>)>::empty(),
{
    ArchiveWriter { inner: zip::ZipWriter::new(std::io::Cursor::new(Vec::new())) }
}

/// Relies on `zip::ZipWriter::start_file` with deflate compression: on
/// success a fresh, empty entry of the given name is opened at the end of
/// the archive. Over a byte cursor the call refuses only a duplicate name,
/// a name beyond the format's two-byte length field, or a previous entry
/// whose recorded sizes overflow their four-byte fields; an entry held to
/// half that range cannot overflow them even after compression framing.
#[verifier::external_body]
fn zw_start_file(w: &mut ArchiveWriter, name: &str) -> (r: Result<
    (),
    (),
>)
    ensures
        r is Ok ==> zw_log(*final(w)) == zw_log(*old(w)).push((name@, Seq::<u8>::empty())),
        log_lookup(zw_log(*old(w)), name@) is None && name.spec_bytes().len() <= 65535 && (zw_log(
            *old(w),
        ).len() == 0 || zw_log(*old(w)).last().1.len() <= 2147483647) ==> r is Ok,
{
    let opts = zip::write::SimpleFileOptions::default().compression_method(
        zip::CompressionMethod::Deflated,
    );
    w.inner.start_file(name, opts).map_err(|_| ())
}

/// Relies on the `std::io::Write` impl of `zip::ZipWriter`: on success the
/// data is appended to the entry opened last. Over a byte cursor the only
/// refusal is an entry grown past the format's four-byte size field.
#[verifier::external_body]
fn zw_write_all(w: &mut ArchiveWriter, data: &Vec<u8>) -> (r: Result<
    (),
    (),
>)
    requires
        zw_log(*old(w)).len() > 0,
    ensures
        r is Ok ==> zw_log(*final(w)) == zw_log(*old(w)).update(
            zw_log(*old(w)).len() - 1,
            (zw_log(*old(w)).last().0, zw_log(*old(w)).last().1 + data@),
        ),
        zw_log(*old(w)).last().1.len() + data@.len() <= 4294967295 ==> r is Ok,
{
    w.inner.write_all(data).map_err(|_| ())
}

/// Relies on `zip::ZipWriter::finish`: the finished archive (central
/// directory flushed) answers every name with exactly the entries written,
/// the last entry of a name winning, and is readable by the reader. Over a
/// byte cursor the flush refuses only sizes or counts past their central
/// directory fields; entries held to half the four-byte range cannot
/// overflow them even after compression framing.
#[verifier::external_body]
fn zw_finish(w: ArchiveWriter) -> (r: Result<Vec<u8>, ()>)
    ensures
        r matches Ok(v) ==> forall|n: Seq<char>| #[trigger] zip_entry(v@, n) == log_lookup(
            zw_log(w),
            n,
        ),
        r matches Ok(v) ==> zip_readable(v@),
        (forall|i: int|
            0 <= i < zw_log(w).len() ==> (#[trigger] zw_log(w)[i]).1.len() <= 2147483647)
            && zw_log(w).len() <= 65535 ==> r is Ok,
{
    match w.inner.finish() {
        Ok(c) => Ok(c.into_inner()),
        Err(_) => Err(()),
    }
}

/// Why an entry could not be read back out of an archive.
#[derive(Debug)]
pub enum ZipReadFault {
    /// The bytes are not a readable archive.
    BadArchive,
    /// No entry of that name.
    Missing,
    /// The entry exists but its data could not be decompressed.
    ReadFailed,
}

/// Relies on `zip::ZipArchive::new`, `by_name` and `read_to_end`: reading a
/// name out of an archive returns that entry's data; a file-not-found
/// answer means the archive holds no entry of that name; and on a readable
/// archive the read of a present entry succeeds and an absent name answers
/// exactly file-not-found.
#[verifier::external_body]
fn zip_read_entry(archive: &Vec<u8>, name: &str) -> (r: Result<Vec<u8>, ZipReadFault>)
    ensures
        r matches Ok(v) ==> zip_entry(archive@, name@) == Some(v@),
        r matches Err(f) && f is Missing ==> zip_entry(archive@, name@) is None,
        zip_readable(archive@) && zip_entry(archive@, name@) is Some ==> r is Ok,
        zip_readable(archive@) && zip_entry(archive@, name@) is None ==> r is Err
            && r->Err_0 is Missing,
{
    let mut ar = match zip::ZipArchive::new(std::io::Cursor::new(archive.clone())) {
        Ok(a) => a,
        Err(_) => return Err(ZipReadFault::BadArchive),
    };
    let mut f = match ar.by_name(name) {
        Ok(f) => f,
        Err(zip::result::ZipError::FileNotFound) => return Err(ZipReadFault::Missing),
        Err(_) => return Err(ZipReadFault::BadArchive),
    };
    let mut out: Vec<u8> = Vec::new();
    let res = std::io::Read::read_to_end(&mut f, &mut out);
    res.map(|_| out).map_err(|_| ZipReadFault::ReadFailed)
}

/// Packs the three backup entries, in order: the database, the manifest, the
/// metadata descriptor. The finished archive is readable, answers each of
/// the three names with exactly the bytes given here and holds no other
/// entry; entries within the archive format's size fields always pack.
pub fn build_backup_archive(
    db_bytes: &Vec<u8>,
    manifest_bytes: &Vec<u8>,
    metadata_bytes: &Vec<u8>,
) -> (r: Result<Vec<u8>, ()>)
    ensures
        r matches Ok(v) ==> zip_entry(v@, "database.sqlite"@) == Some(db_bytes@) && zip_entry(
            v@,
            "workspace.json"@,
        ) == Some(manifest_bytes@) && zip_entry(v@, "metadata.json"@) == Some(metadata_bytes@),
        r matches Ok(v) ==> zip_readable(v@) && (forall|n: Seq<char>|
            n != "database.sqlite"@ && n != "workspace.json"@ && n != "metadata.json"@
                ==> #[trigger] zip_entry(v@, n) is None),
        db_bytes@.len() <= 2147483647 && manifest_bytes@.len() <= 2147483647
            && metadata_bytes@.len() <= 2147483647 ==> r is Ok,
{
    proof {
        reveal_strlit("database.sqlite");
        reveal_strlit("workspace.json");
        reveal_strlit("metadata.json");
        lemma_encode_utf8_len("database.sqlite"@);
        lemma_encode_utf8_len("workspace.json"@);
        lemma_encode_utf8_len("metadata.json"@);
    }
    let mut w = zw_new();
    if zw_start_file(&mut w, "database.sqlite").is_err() {
        return Err(());
    }
    if zw_write_all(&mut w, db_bytes).is_err() {
        return Err(());
    }
    proof {
        reveal_strlit("database.sqlite");
        reveal_strlit("workspace.json");
        let log1 = zw_log(w);
        assert(log1.len() == 1);
        assert(log1.last().0 == "database.sqlite"@);
        assert("workspace.json"@.len() == 14);
        assert("database.sqlite"@.len() == 15);
        assert("workspace.json"@ != "database.sqlite"@);
        assert(log1.drop_last() =~= Seq::<(Seq<char>, Seq<u8>)>::empty());
        assert(log_lookup(log1, "workspace.json"@) == log_lookup(
            log1.drop_last(),
            "workspace.json"@,
        ));
        assert(log_lookup(log1, "workspace.json"@) is None);
        assert(Seq::<u8>::empty() + db_bytes@ =~= db_bytes@);
    }
    if zw_start_file(&mut w, "workspace.json").is_err() {
        return Err(());
    }
    if zw_write_all(&mut w, manifest_bytes).is_err() {
        return Err(());
    }
    proof {
        reveal_strlit("database.sqlite");
        reveal_strlit("workspace.json");
        reveal_strlit("metadata.json");
        let log2 = zw_log(w);
        assert(log2.len() == 2);
        assert(log2.last().0 == "workspace.json"@);
        assert(log2.drop_last().last().0 == "database.sqlite"@);
        assert("metadata.json"@.len() == 13);
        assert("workspace.json"@.len() == 14);
        assert("database.sqlite"@.len() == 15);
        assert("metadata.json"@ != "workspace.json"@);
        assert("metadata.json"@ != "database.sqlite"@);
        assert(log2.drop_last().drop_last() =~= Seq::<(Seq<char>, Seq<u8>)>::empty());
        assert(log_lookup(log2, "metadata.json"@) == log_lookup(
            log2.drop_last(),
            "metadata.json"@,
        ));
        assert(log_lookup(log2.drop_last(), "metadata.json"@) == log_lookup(
            log2.drop_last().drop_last(),
            "metadata.json"@,
        ));
        assert(log_lookup(log2, "metadata.json"@) is None);
        assert(Seq::<u8>::empty() + manifest_bytes@ =~= manifest_bytes@);
    }
    if zw_start_file(&mut w, "metadata.json").is_err() {
        return Err(());
    }
    if zw_write_all(&mut w, metadata_bytes).is_err() {
        return Err(());
    }
    let ghost log = zw_log(w);
    proof {
        assert(log.len() == 3);
        assert(Seq::<u8>::empty() + db_bytes@ =~= db_bytes@);
        assert(Seq::<u8>::empty() + manifest_bytes@ =~= manifest_bytes@);
        assert(Seq::<u8>::empty() + metadata_bytes@ =~= metadata_bytes@);
        assert(log[0] == ("database.sqlite"@, db_bytes@));
        assert(log[1] == ("workspace.json"@, manifest_bytes@));
        assert(log[2] == ("metadata.json"@, metadata_bytes@));
        let l2 = log.drop_last();
        let l1 = l2.drop_last();
        assert(log.last() == log[2]);
        assert(l2.last() == log[1]);
        assert(l1.last() == log[0]);
        assert(l1.len() == 1);
        reveal_strlit("database.sqlite");
        reveal_strlit("workspace.json");
        reveal_strlit("metadata.json");
        assert("database.sqlite"@.len() == 15);
        assert("workspace.json"@.len() == 14);
        assert("metadata.json"@.len() == 13);
        assert("metadata.json"@ != "database.sqlite"@);
        assert("workspace.json"@ != "database.sqlite"@);
        assert("metadata.json"@ != "workspace.json"@);
        assert(log_lookup(log, "database.sqlite"@) == log_lookup(l2, "database.sqlite"@));
        assert(log_lookup(l2, "database.sqlite"@) == log_lookup(l1, "database.sqlite"@));
        assert(log_lookup(l1, "database.sqlite"@) == Some(db_bytes@));
        assert(log_lookup(log, "workspace.json"@) == log_lookup(l2, "workspace.json"@));
        assert(log_lookup(l2, "workspace.json"@) == Some(manifest_bytes@));
        assert(log_lookup(log, "metadata.json"@) == Some(metadata_bytes@));
        assert forall|n: Seq<char>|
            n != "database.sqlite"@ && n != "workspace.json"@ && n != "metadata.json"@ implies (
        #[trigger] log_lookup(log, n)) is None by {
            assert(log_lookup(log, n) == log_lookup(l2, n));
            assert(log_lookup(l2, n) == log_lookup(l1, n));
            assert(log_lookup(l1, n) == log_lookup(l1.drop_last(), n));
            assert(l1.drop_last().len() == 0);
        }
    }
    match zw_finish(w) {
        Ok(v) => Ok(v),
        Err(_) => Err(()),
    }
}

/// Why a database could not be restored from an archive.
#[derive(Debug)]
pub enum ExtractFault {
    /// The bytes are not a readable archive.
    BadArchive,
    /// The archive holds neither the standard nor the legacy database entry.
    MissingDb,
    /// The database entry's bytes fail the magic check.
    NotSqlite,
    /// The entry exists but its data could not be read.
    ReadFailed,
}

/// Resolves the database entry by its standard name, falling back to the
/// legacy name, reads it whole, and checks the magic header. On a readable
/// archive the outcome is exact: success exactly when the resolved entry
/// exists and carries the magic header.
pub fn extract_db_from_backup(archive: &Vec<u8>) -> (r: Result<Vec<u8>, ExtractFault>)
    ensures
        r matches Ok(v) ==> is_sqlite(v@) && backup_db_entry(archive@) == Some(v@),
        r matches Err(f) && f is MissingDb ==> backup_db_entry(archive@) is None,
        zip_readable(archive@) ==> (r is Ok <==> (backup_db_entry(archive@) matches Some(b)
            && is_sqlite(b))),
        zip_readable(archive@) ==> ((r matches Err(f) && f is NotSqlite) <==> (backup_db_entry(
            archive@,
        ) matches Some(b) && !is_sqlite(b))),
        zip_readable(archive@) ==> ((r matches Err(f) && f is MissingDb) <==> backup_db_entry(
            archive@,
        ) is None),
{
    let first = zip_read_entry(archive, "database.sqlite");
    match first {
        Ok(v) => {
            if is_sqlite_bytes(&v) {
                Ok(v)
            } else {
                Err(ExtractFault::NotSqlite)
            }
        },
        Err(ZipReadFault::Missing) => {
            match zip_read_entry(archive, "db.sqlite") {
                Ok(v) => {
                    if is_sqlite_bytes(&v) {
                        Ok(v)
                    } else {
                        Err(ExtractFault::NotSqlite)
                    }
                },
                Err(ZipReadFault::Missing) => Err(ExtractFault::MissingDb),
                Err(ZipReadFault::BadArchive) => Err(ExtractFault::BadArchive),
                Err(ZipReadFault::ReadFailed) => Err(ExtractFault::ReadFailed),
            }
        },
        Err(ZipReadFault::BadArchive) => Err(ExtractFault::BadArchive),
        Err(ZipReadFault::ReadFailed) => Err(ExtractFault::ReadFailed),
    }
}

/// The database bytes round-trip through a backup: an archive the archiver
/// packed from a valid database resolves its database entry to exactly
/// those bytes, and they carry the magic header — so on the readable
/// archive the archiver produces, extraction succeeds and returns them.
pub proof fn lemma_backup_round_trip(archive: Seq<u8>, db: Seq<u8>)
    requires
        is_sqlite(db),
        zip_entry(archive, "database.sqlite"@) == Some(db),
    ensures
        backup_db_entry(archive) == Some(db),
        is_sqlite(backup_db_entry(archive)->Some_0),
{
}

} // verus!
