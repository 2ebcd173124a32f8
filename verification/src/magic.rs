//! The SQLite magic header check: a database blob is valid iff its first
//! sixteen bytes are the ASCII sequence "SQLite format 3" followed by a NUL.

use vstd::prelude::*;

verus! {

/// The sixteen magic bytes, as a spec sequence.
pub open spec fn sqlite_magic() -> Seq<u8> {
    seq![83u8, 81u8, 76u8, 105u8, 116u8, 101u8, 32u8, 102u8, 111u8, 114u8, 109u8, 97u8, 116u8, 32u8, 51u8, 0u8]
}

/// A byte blob is a valid database iff it is at least sixteen bytes long and
/// starts with the magic header.
pub open spec fn is_sqlite(bytes: Seq<u8>) -> bool {
    bytes.len() >= 16 && bytes.subrange(0, 16) == sqlite_magic()
}

/// Checks the SQLite magic header.
pub fn is_sqlite_bytes(bytes: &Vec<u8>) -> (r: bool)
    ensures
        r == is_sqlite(bytes@),
{
    if bytes.len() < 16 {
        return false;
    }
    let magic: [u8; 16] = [83, 81, 76, 105, 116, 101, 32, 102, 111, 114, 109, 97, 116, 32, 51, 0];
    let mut i: usize = 0;
    while i < 16
        invariant
            i <= 16,
            bytes@.len() >= 16,
            magic@ == sqlite_magic(),
            forall|j: int| 0 <= j < i ==> bytes@[j] == sqlite_magic()[j],
        decreases 16 - i,
    {
        if bytes[i] != magic[i] {
            assert(bytes@.subrange(0, 16)[i as int] != sqlite_magic()[i as int]);
            return false;
        }
        i += 1;
    }
    assert(bytes@.subrange(0, 16) =~= sqlite_magic());
    true
}

} // verus!
