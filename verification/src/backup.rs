//! Where a capture is kept as it was before it was edited: a file in the
//! cache directory, named by a digest of the capture's path.

use vstd::prelude::*;
use vstd::string::*;
use std::collections::hash_map::DefaultHasher;
use std::hash::Hasher;
use vstd::std_specs::hash::DefaultHasherAdditionalSpecFns;

verus! {

/// The sixteen hexadecimal digits.
pub open spec fn hex_alphabet() -> Seq<char> {
    "0123456789abcdef"@
}

/// The last `n` hexadecimal digits of `value`, lower case, with leading
/// zeros.
pub open spec fn hex_digits(value: nat, n: nat) -> Seq<char>
    decreases n,
{
    if n == 0 {
        Seq::<char>::empty()
    } else {
        hex_digits(value / 16, (n - 1) as nat).push(hex_alphabet()[(value % 16) as int])
    }
}

/// What is fed to the hasher for a path: its bytes, and one byte that no
/// string holds to end it.
pub open spec fn path_feed(path: Seq<char>) -> Seq<Seq<u8>> {
    seq![vstd::utf8::encode_utf8(path), seq![0xffu8]]
}

/// The digest of a path.
pub open spec fn path_digest(path: Seq<char>) -> u64 {
    DefaultHasher::spec_finish(path_feed(path))
}

/// The name under which the capture at `path` is kept as it was.
pub open spec fn path_hash(path: Seq<char>) -> Seq<char> {
    hex_digits(path_digest(path) as nat, 16)
}

/// Writes a number as sixteen hexadecimal digits.
pub fn hex16(value: u64) -> (r: String)
    ensures
        r@ == hex_digits(value as nat, 16),
{
    let alphabet = "0123456789abcdef";
    proof {
        reveal_strlit("0123456789abcdef");
    }
    let mut out = String::new();
    let mut rest: u64 = value;
    let mut i: usize = 0;
    while i < 16
        invariant
            i <= 16,
            alphabet@ == hex_alphabet(),
            alphabet@.len() == 16,
            hex_digits(value as nat, 16) == hex_digits(rest as nat, (16 - i) as nat) + out@,
        decreases 16 - i,
    {
        let d: usize = (rest % 16) as usize;
        let digit = alphabet.substring_char(d, d + 1);
        proof {
            assert(digit@ =~= seq![hex_alphabet()[d as int]]);
            assert(hex_digits((rest / 16) as nat, (15 - i) as nat).push(hex_alphabet()[d as int])
                + out@ =~= hex_digits((rest / 16) as nat, (15 - i) as nat) + (digit@ + out@));
        }
        out = String::from_str(digit).concat(out.as_str());
        rest = rest / 16;
        i = i + 1;
    }
    proof {
        assert(hex_digits(rest as nat, 0) + out@ =~= out@);
    }
    out
}

/// The digest of a path, as sixteen hexadecimal digits.
pub fn compute_path_hash(filepath: &str) -> (r: String)
    ensures
        r@ == path_hash(filepath@),
{
    let mut hasher = DefaultHasher::new();
    hasher.write(filepath.as_bytes());
    let end: [u8; 1] = [0xffu8];
    hasher.write(end.as_slice());
    proof {
        assert(end@ =~= seq![0xffu8]);
        assert(hasher@ =~= path_feed(filepath@));
    }
    hex16(hasher.finish())
}

/// The home directory: what the environment names, or `/tmp` where it
/// names none.
pub open spec fn home_or_tmp(named: Option<Seq<char>>) -> Seq<char> {
    match named {
        Some(home) => home,
        None => "/tmp"@,
    }
}

/// The directory of the backups, under the home directory.
pub open spec fn cache_dir(home: Seq<char>) -> Seq<char> {
    home + "/Library/Caches/screenshotapp/backups"@
}

/// The path of the backup of the capture at `path`: in the directory of the
/// backups, the digest of the capture's path with the ending `.original`.
pub open spec fn backup_path(home: Seq<char>, path: Seq<char>) -> Seq<char> {
    cache_dir(home) + "/"@ + path_hash(path) + ".original"@
}

/// The home directory, given what the environment names.
pub fn home_directory(named: Option<String>) -> (r: String)
    ensures
        r@ == home_or_tmp(
            match named {
                Some(home) => Some(home@),
                None => None,
            },
        ),
{
    match named {
        Some(home) => home,
        None => String::from_str("/tmp"),
    }
}

/// The directory of the backups, under the home directory.
pub fn backup_cache_dir(home: &str) -> (r: String)
    ensures
        r@ == cache_dir(home@),
        r@ == home@ + "/Library/Caches/screenshotapp/backups"@,
{
    String::from_str(home).concat("/Library/Caches/screenshotapp/backups")
}

/// The path of the backup of a capture, under the home directory. Nothing
/// is made or written.
pub fn get_original_backup_path(home: &str, filepath: &str) -> (r: String)
    ensures
        r@ == backup_path(home@, filepath@),
        r@ == home@ + "/Library/Caches/screenshotapp/backups"@ + "/"@ + path_hash(filepath@)
            + ".original"@,
{
    let mut out = backup_cache_dir(home);
    out.append("/");
    let hash = compute_path_hash(filepath);
    out.append(hash.as_str());
    out.append(".original");
    out
}

} // verus!
