//! SHA-256 digests and their hexadecimal form.
use sha2::Digest;
use vstd::prelude::*;

verus! {

/// The hasher of the `sha2` crate.
#[verifier::external_type_specification]
#[verifier::external_body]
pub struct ExSha256(sha2::Sha256);

/// The most bytes that one digest can cover: their number of bits has to fit in 64 bits.
pub const MAX_HASHED_BYTES: u64 = 0x1fff_ffff_ffff_ffff;

/// The number of bytes of a digest.
pub const DIGEST_LEN: usize = 32;

/// The bytes that a hasher has taken in so far.
pub uninterp spec fn absorbed(hasher: sha2::Sha256) -> Seq<u8>;

/// The SHA-256 digest of `data`.
pub uninterp spec fn sha256(data: Seq<u8>) -> Seq<u8>;

/// The hexadecimal digit of a number below sixteen, in lower case.
pub open spec fn hex_digit(d: nat) -> char {
    if d < 10 {
        ('0' as nat + d) as char
    } else {
        ('a' as nat + d - 10) as char
    }
}

/// The hexadecimal form of `bytes`: two lower-case digits for each of them, the high one first.
pub open spec fn hex(bytes: Seq<u8>) -> Seq<char> {
    Seq::new(
        2 * bytes.len(),
        |i: int|
            if i % 2 == 0 {
                hex_digit(bytes[i / 2] as nat / 16)
            } else {
                hex_digit(bytes[i / 2] as nat % 16)
            },
    )
}

/// `Sha256::new` of `sha2`: a hasher that has taken in nothing.
#[verifier::external_body]
fn new_sha256() -> (hasher: sha2::Sha256)
    ensures
        absorbed(hasher) == Seq::<u8>::empty(),
{
    sha2::Sha256::new()
}

/// `Digest::update` of `sha2`: the hasher takes in `data` after what it has taken in before. The
/// hasher counts whole blocks in 64 bits, which the bound keeps far from their end.
#[verifier::external_body]
fn update_sha256(hasher: &mut sha2::Sha256, data: &[u8])
    requires
        absorbed(*old(hasher)).len() + data@.len() <= MAX_HASHED_BYTES,
    ensures
        absorbed(*final(hasher)) == absorbed(*old(hasher)) + data@,
{
    hasher.update(data)
}

/// `Digest::finalize` of `sha2`: the digest of what the hasher has taken in, of 32 bytes. It
/// computes the number of bits in 64 bits, so that must fit.
#[verifier::external_body]
fn finalize_sha256(hasher: sha2::Sha256) -> (digest: Vec<u8>)
    requires
        absorbed(hasher).len() <= MAX_HASHED_BYTES,
    ensures
        digest@ == sha256(absorbed(hasher)),
        digest@.len() == DIGEST_LEN,
{
    hasher.finalize().to_vec()
}

/// `hex::encode` of the `hex` crate: two lower-case hexadecimal digits for each byte.
#[verifier::external_body]
fn encode_hex(bytes: &[u8]) -> (text: String)
    ensures
        text@ == hex(bytes@),
{
    hex::encode(bytes)
}

/// The SHA-256 digest of `data`.
pub fn digest_of(data: &[u8]) -> (digest: Vec<u8>)
    requires
        data@.len() <= MAX_HASHED_BYTES,
    ensures
        digest@ == sha256(data@),
        digest@.len() == DIGEST_LEN,
{
    let mut hasher = new_sha256();
    update_sha256(&mut hasher, data);
    assert(Seq::<u8>::empty() + data@ =~= data@);
    finalize_sha256(hasher)
}

/// The hash of a bucket while its decompressed content arrives.
#[derive(Debug)]
pub struct BucketHasher {
    hasher: sha2::Sha256,
    decompressed_bytes: u64,
}

/// What a [`BucketHasher`] makes of a read.
#[derive(Debug)]
pub enum HashStep {
    /// There was content, and there may be more.
    More(BucketHasher),
    /// The content has ended: its hash in hexadecimal form, and its number of bytes.
    Done { hash: String, decompressed_bytes: u64 },
}

impl View for BucketHasher {
    type V = Seq<u8>;

    /// The content that has arrived so far.
    closed spec fn view(&self) -> Seq<u8> {
        absorbed(self.hasher)
    }
}

impl BucketHasher {
    /// The number of bytes is that of the content.
    pub closed spec fn wf(&self) -> bool {
        self.decompressed_bytes == self@.len() && self@.len() <= MAX_HASHED_BYTES
    }

    /// A hasher at the start of the content.
    pub fn new() -> (hasher: Self)
        ensures
            hasher.wf(),
            hasher@ == Seq::<u8>::empty(),
    {
        Self { hasher: new_sha256(), decompressed_bytes: 0 }
    }

    /// The number of bytes that may still arrive.
    pub fn capacity(&self) -> (left: u64)
        requires
            self.wf(),
        ensures
            left == MAX_HASHED_BYTES - self@.len(),
    {
        MAX_HASHED_BYTES - self.decompressed_bytes
    }

    /// Takes in the bytes that a read of the decompressed content gave. A read of no bytes is the
    /// end of the content.
    pub fn absorb(self, read: &[u8]) -> (step: HashStep)
        requires
            self.wf(),
            self@.len() + read@.len() <= MAX_HASHED_BYTES,
        ensures
            match step {
                HashStep::More(hasher) => read@.len() > 0 && hasher.wf() && hasher@ == self@
                    + read@,
                HashStep::Done { hash, decompressed_bytes } => read@.len() == 0 && hash@ == hex(
                    sha256(self@),
                ) && decompressed_bytes == self@.len(),
            },
    {
        if read.len() == 0 {
            let digest = finalize_sha256(self.hasher);
            return HashStep::Done {
                hash: encode_hex(digest.as_slice()),
                decompressed_bytes: self.decompressed_bytes,
            };
        }
        let mut hasher = self.hasher;
        let decompressed_bytes = self.decompressed_bytes + read.len() as u64;
        update_sha256(&mut hasher, read);
        HashStep::More(BucketHasher { hasher, decompressed_bytes })
    }
}

} // verus!
