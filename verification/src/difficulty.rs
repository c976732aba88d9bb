//! The difficulty check: a header is a near miss when its double SHA-256
//! digest ends in exactly the configured number of zero bytes.

use sha2::Digest;
use vstd::prelude::*;

verus! {

/// The header version that every submission must carry.
pub const EXPECTED_BITCOIN_VERSION: u32 = 0x20000000;

/// The SHA-256 digest of `data`, as computed by the `sha2` crate.
pub uninterp spec fn sha256_digest(data: Seq<u8>) -> Seq<u8>;

/// Calls `sha2::Sha256::digest`. Trusted: the 32 bytes returned are the
/// SHA-256 digest of `data`, and depend on `data` alone.
#[verifier::external_body]
fn sha256(data: &[u8]) -> (digest: [u8; 32])
    ensures
        digest@ == sha256_digest(data@),
{
    sha2::Sha256::digest(data).into()
}

/// The number of zero bytes at the end of `bytes`: the length of the longest
/// all-zero suffix.
pub open spec fn trailing_zero_bytes(bytes: Seq<u8>) -> nat
    decreases bytes.len(),
{
    if bytes.len() == 0 || bytes.last() != 0 {
        0
    } else {
        1 + trailing_zero_bytes(bytes.drop_last())
    }
}

/// Counts the zero bytes at the end of a digest, scanning from the last byte
/// backward and stopping at the first byte that is not zero.
pub fn count_trailing_zero_bytes(digest: &[u8; 32]) -> (count: usize)
    ensures
        count == trailing_zero_bytes(digest@),
        count <= 32,
{
    let mut count: usize = 0;
    assert(digest@.subrange(0, 32) =~= digest@);
    while count < 32 && digest[31 - count] == 0
        invariant
            count <= 32,
            digest@.len() == 32,
            trailing_zero_bytes(digest@) == count + trailing_zero_bytes(
                digest@.subrange(0, 32 - count),
            ),
        decreases 32 - count,
    {
        assert(digest@.subrange(0, 32 - count).drop_last() =~= digest@.subrange(
            0,
            32 - count - 1,
        ));
        count = count + 1;
    }
    count
}

/// The digest that decides a submission: SHA-256 applied twice.
pub open spec fn double_digest(header: Seq<u8>) -> Seq<u8> {
    sha256_digest(sha256_digest(header))
}

/// A header is a near miss when it carries the expected version and its
/// double digest ends in exactly `target` zero bytes: not fewer, not more.
pub open spec fn is_near_miss(version: u32, header: Seq<u8>, target: u8) -> bool {
    version == EXPECTED_BITCOIN_VERSION && trailing_zero_bytes(double_digest(header)) == target
}

/// Hashes `header` twice with SHA-256.
pub fn double_sha256(header: &[u8]) -> (digest: [u8; 32])
    ensures
        digest@ == double_digest(header@),
{
    let first = sha256(header);
    sha256(first.as_slice())
}

/// Whether `digest` ends in exactly `target` zero bytes.
pub fn meets_target(digest: &[u8; 32], target: u8) -> (ok: bool)
    ensures
        ok == (trailing_zero_bytes(digest@) == target),
{
    count_trailing_zero_bytes(digest) == target as usize
}

/// What the difficulty check finds in a header.
#[derive(Clone, Copy, Debug, PartialEq, Eq, Structural)]
pub enum Verdict {
    /// A near miss.
    Valid,
    /// The double digest does not end in exactly the target's zero bytes.
    DifficultyMismatch,
    /// The header does not carry the expected version.
    VersionMismatch,
}

/// The verdict on a header: the version is looked at first.
pub open spec fn verdict_on(version: u32, header: Seq<u8>, target: u8) -> Verdict {
    if version != EXPECTED_BITCOIN_VERSION {
        Verdict::VersionMismatch
    } else if trailing_zero_bytes(double_digest(header)) != target {
        Verdict::DifficultyMismatch
    } else {
        Verdict::Valid
    }
}

/// Judges a header. A version other than the expected one is refused
/// before anything is hashed.
pub fn judge(version: u32, header: &[u8], target: u8) -> (verdict: Verdict)
    ensures
        verdict == verdict_on(version, header@, target),
{
    if version != EXPECTED_BITCOIN_VERSION {
        return Verdict::VersionMismatch;
    }
    let digest = double_sha256(header);
    if meets_target(&digest, target) {
        Verdict::Valid
    } else {
        Verdict::DifficultyMismatch
    }
}

/// The difficulty check: whether the header is a near miss.
pub fn check(version: u32, header: &[u8], target: u8) -> (ok: bool)
    ensures
        ok == is_near_miss(version, header@, target),
        ok == (verdict_on(version, header@, target) == Verdict::Valid),
{
    match judge(version, header, target) {
        Verdict::Valid => true,
        Verdict::DifficultyMismatch => false,
        Verdict::VersionMismatch => false,
    }
}

/// What the count of trailing zero bytes means: `bytes` ends in
/// `trailing_zero_bytes(bytes)` zero bytes, and the byte before them, if
/// there is one, is not zero.
pub proof fn lemma_trailing_zero_bytes(bytes: Seq<u8>)
    ensures
        trailing_zero_bytes(bytes) <= bytes.len(),
        forall|i: int|
            bytes.len() - trailing_zero_bytes(bytes) <= i < bytes.len() ==> bytes[i] == 0,
        trailing_zero_bytes(bytes) < bytes.len() ==> bytes[bytes.len() - trailing_zero_bytes(bytes)
            - 1] != 0,
    decreases bytes.len(),
{
    if bytes.len() != 0 && bytes.last() == 0 {
        let head = bytes.drop_last();
        lemma_trailing_zero_bytes(head);
        assert forall|i: int|
            bytes.len() - trailing_zero_bytes(bytes) <= i < bytes.len() implies bytes[i] == 0 by {
            if i < head.len() {
                assert(bytes[i] == head[i]);
            }
        }
        if trailing_zero_bytes(bytes) < bytes.len() {
            assert(bytes[bytes.len() - trailing_zero_bytes(bytes) - 1] == head[head.len()
                - trailing_zero_bytes(head) - 1]);
        }
    }
}

/// The match is exact. With the expected version, a double digest that ends
/// in `target` zero bytes passes; one that ends in one zero byte more, or
/// one fewer, does not. Any other version fails whatever the digest.
pub proof fn lemma_near_miss_is_exact(version: u32, header: Seq<u8>, target: u8)
    ensures
        version == EXPECTED_BITCOIN_VERSION && trailing_zero_bytes(double_digest(header))
            == target ==> is_near_miss(version, header, target),
        trailing_zero_bytes(double_digest(header)) == target + 1 ==> !is_near_miss(
            version,
            header,
            target,
        ),
        trailing_zero_bytes(double_digest(header)) == target - 1 ==> !is_near_miss(
            version,
            header,
            target,
        ),
        version != EXPECTED_BITCOIN_VERSION ==> !is_near_miss(version, header, target),
{
}

} // verus!
