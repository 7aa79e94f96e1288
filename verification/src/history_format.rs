//! The names of the files of a history archive.
use vstd::prelude::*;

use crate::text::{chars_of, is_at, occurs_at, string_of};
use crate::url::opt_chars;

verus! {

/// The number of hexadecimal digits in a bucket hash.
pub const BUCKET_HASH_LEN: usize = 64;

/// The number of characters in the name of a bucket file.
pub const BUCKET_NAME_LEN: usize = 78;

/// `c` is a hexadecimal digit.
pub open spec fn is_hex_digit(c: char) -> bool {
    '0' <= c <= '9' || 'a' <= c <= 'f' || 'A' <= c <= 'F'
}

/// `hash` has the form of a bucket hash.
pub open spec fn is_bucket_hash(hash: Seq<char>) -> bool {
    &&& hash.len() == BUCKET_HASH_LEN
    &&& forall|i: int| 0 <= i < hash.len() ==> is_hex_digit(#[trigger] hash[i])
}

/// `path` is that of the bucket file with this hash: a file named `bucket-<hash>.xdr.gz`, in
/// whatever directory.
pub open spec fn names_bucket(path: Seq<char>, hash: Seq<char>) -> bool {
    let name = "bucket-"@ + hash + ".xdr.gz"@;
    &&& is_bucket_hash(hash)
    &&& occurs_at(path, name, path.len() - name.len())
    &&& path.len() > name.len() ==> path[path.len() - name.len() - 1] == '/'
}

/// The hash that the path of a bucket file names, if it is one.
pub open spec fn bucket_hash(path: Seq<char>) -> Option<Seq<char>> {
    let start = path.len() - BUCKET_NAME_LEN;
    let hash = path.subrange(start + 7, start + 7 + BUCKET_HASH_LEN);
    if start >= 0 && (start > 0 ==> path[start - 1] == '/') && occurs_at(path, "bucket-"@, start)
        && is_bucket_hash(hash) && occurs_at(path, ".xdr.gz"@, path.len() - 7) {
        Some(hash)
    } else {
        None
    }
}

/// A path names at most one bucket hash, and that is the one found in it.
pub proof fn law_bucket_hash_is_the_one_named(path: Seq<char>, hash: Seq<char>)
    ensures
        names_bucket(path, hash) <==> bucket_hash(path) == Some(hash),
{
    reveal_strlit("bucket-");
    reveal_strlit(".xdr.gz");
    let name = "bucket-"@ + hash + ".xdr.gz"@;
    let start = path.len() - BUCKET_NAME_LEN;
    if names_bucket(path, hash) {
        assert(path.subrange(start, path.len() as int) == name);
        assert(path.subrange(start, start + 7) =~= name.subrange(0, 7));
        assert(name.subrange(0, 7) =~= "bucket-"@);
        assert(path.subrange(start + 7, start + 71) =~= name.subrange(7, 71));
        assert(name.subrange(7, 71) =~= hash);
        assert(path.subrange(path.len() - 7, path.len() as int) =~= name.subrange(71, 78));
        assert(name.subrange(71, 78) =~= ".xdr.gz"@);
    }
    if bucket_hash(path) == Some(hash) {
        assert(path.subrange(start, path.len() as int) =~= path.subrange(start, start + 7)
            + path.subrange(start + 7, start + 71) + path.subrange(
            path.len() - 7,
            path.len() as int,
        ));
    }
}

/// The hash of the bucket file at `path`, or nothing if `path` is not that of a bucket file.
pub fn bucket_hash_from_path(path: &str) -> (hash: Option<String>)
    ensures
        opt_chars(hash) == bucket_hash(path@),
{
    proof {
        reveal_strlit("bucket-");
        reveal_strlit(".xdr.gz");
    }
    let chars = chars_of(path);
    if chars.len() < BUCKET_NAME_LEN {
        return None;
    }
    let start: usize = chars.len() - BUCKET_NAME_LEN;
    if start > 0 && chars[start - 1] != '/' {
        return None;
    }
    if !is_at(chars.as_slice(), chars_of("bucket-").as_slice(), start) || !is_at(
        chars.as_slice(),
        chars_of(".xdr.gz").as_slice(),
        chars.len() - 7,
    ) {
        return None;
    }
    let from: usize = start + 7;
    let to: usize = from + BUCKET_HASH_LEN;
    let ghost hash = path@.subrange(from as int, to as int);
    let mut i: usize = from;
    while i < to
        invariant
            from <= i <= to <= chars@.len(),
            chars@ == path@,
            from == path@.len() - BUCKET_NAME_LEN + 7,
            to == from + BUCKET_HASH_LEN,
            hash == path@.subrange(from as int, to as int),
            forall|j: int| 0 <= j < i - from ==> is_hex_digit(#[trigger] hash[j]),
        decreases to - i,
    {
        let c = chars[i];
        assert(hash[i - from] == c);
        if !(('0' <= c && c <= '9') || ('a' <= c && c <= 'f') || ('A' <= c && c <= 'F')) {
            assert(!is_hex_digit(hash[i - from]));
            return None;
        }
        i = i + 1;
    }
    Some(string_of(chars.as_slice(), from, to))
}

} // verus!
