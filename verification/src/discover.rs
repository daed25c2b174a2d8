//! Which files of a directory scan are SQLite databases.
use vstd::prelude::*;

verus! {

/// The magic bytes at the start of every SQLite database file:
/// `"SQLite format 3"` followed by a zero byte.
pub open spec fn sqlite_magic() -> Seq<u8> {
    seq![
        0x53u8, 0x51u8, 0x4cu8, 0x69u8, 0x74u8, 0x65u8, 0x20u8, 0x66u8,
        0x6fu8, 0x72u8, 0x6du8, 0x61u8, 0x74u8, 0x20u8, 0x33u8, 0x00u8,
    ]
}

/// Whether `s` ends with `suffix`.
pub open spec fn ends_with(s: Seq<char>, suffix: Seq<char>) -> bool {
    suffix.len() <= s.len() && s.skip(s.len() - suffix.len()) == suffix
}

/// Companion files of a database (rollback journal, write-ahead log, shared
/// memory), which a scan skips by name.
pub open spec fn is_companion_name(name: Seq<char>) -> bool {
    ends_with(name, "-journal"@) || ends_with(name, "-wal"@) || ends_with(name, "-shm"@)
}

fn magic_bytes() -> (m: [u8; 16])
    ensures
        m@ == sqlite_magic(),
{
    let m: [u8; 16] = [
        0x53, 0x51, 0x4c, 0x69, 0x74, 0x65, 0x20, 0x66, 0x6f, 0x72, 0x6d, 0x61, 0x74, 0x20, 0x33, 0x00,
    ];
    assert(m@ =~= sqlite_magic());
    m
}

/// Whether the first bytes of a file mark a SQLite database: a full 16-byte
/// header was read and it is the SQLite magic.
pub fn is_sqlite_header(header: &[u8; 16], bytes_read: usize) -> (b: bool)
    ensures
        b == (bytes_read == 16 && header@ == sqlite_magic()),
{
    if bytes_read != 16 {
        return false;
    }
    let magic = magic_bytes();
    let mut i: usize = 0;
    while i < 16
        invariant
            i <= 16,
            magic@ == sqlite_magic(),
            header@.len() == 16,
            forall|k: int| 0 <= k < i ==> header@[k] == magic@[k],
        decreases 16 - i,
    {
        if header[i] != magic[i] {
            return false;
        }
        i = i + 1;
    }
    assert(header@ =~= sqlite_magic());
    true
}

/// Whether `s` ends with `suffix`.
pub fn str_ends_with(s: &str, suffix: &str) -> (b: bool)
    ensures
        b == ends_with(s@, suffix@),
{
    let n = s.unicode_len();
    let m = suffix.unicode_len();
    if m > n {
        return false;
    }
    let base = n - m;
    let mut k: usize = 0;
    while k < m
        invariant
            k <= m <= n,
            base == n - m,
            n == s@.len(),
            m == suffix@.len(),
            forall|j: int| 0 <= j < k ==> s@[base + j] == suffix@[j],
        decreases m - k,
    {
        if s.get_char(base + k) != suffix.get_char(k) {
            assert(s@.skip(base as int)[k as int] != suffix@[k as int]);
            return false;
        }
        k = k + 1;
    }
    assert(s@.skip(base as int) =~= suffix@);
    true
}

/// Whether a file name is that of a database's companion file, which a scan
/// skips: it ends in `-journal`, `-wal` or `-shm`.
pub fn is_companion_file(name: &str) -> (b: bool)
    ensures
        b == is_companion_name(name@),
{
    str_ends_with(name, "-journal") || str_ends_with(name, "-wal") || str_ends_with(name, "-shm")
}

} // verus!
