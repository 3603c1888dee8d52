//! Content hashing for integrity verification.
//!
//! After each file copy the engine hashes the source bytes and the bytes
//! that landed at the destination and compares the digests; a mismatch is
//! a corruption.  The hash itself comes from an outside library and is
//! only named here, never restated.

use vstd::prelude::*;
use sha2::Digest;

verus! {

/// SHA-256 digest of a byte sequence, as the outside hash library computes
/// it: a function of the bytes alone, 32 bytes long.
pub uninterp spec fn digest_of(data: Seq<u8>) -> Seq<u8>;

/// Relies on sha2's `Sha256::digest`: it computes the SHA-256 digest of the
/// input bytes alone and always returns 32 bytes.
#[verifier::external_body]
fn sha256(data: &Vec<u8>) -> (digest: Vec<u8>)
    ensures
        digest@ == digest_of(data@),
        digest@.len() == 32,
{
    sha2::Sha256::digest(data.as_slice()).to_vec()
}

/// The SHA-256 digest of `data`, 32 bytes.
pub fn content_digest(data: &Vec<u8>) -> (digest: Vec<u8>)
    ensures
        digest@ == digest_of(data@),
        digest@.len() == 32,
{
    sha256(data)
}

/// Byte-for-byte equality of two byte vectors.
pub fn bytes_equal(a: &Vec<u8>, b: &Vec<u8>) -> (eq: bool)
    ensures
        eq == (a@ == b@),
{
    if a.len() != b.len() {
        assert(a@ != b@) by {
            assert(a@.len() != b@.len());
        }
        return false;
    }
    let mut i: usize = 0;
    while i < a.len()
        invariant
            0 <= i <= a@.len(),
            a@.len() == b@.len(),
            forall|j: int| 0 <= j < i ==> a@[j] == b@[j],
        decreases a@.len() - i,
    {
        if a[i] != b[i] {
            assert(a@[i as int] != b@[i as int]);
            return false;
        }
        i = i + 1;
    }
    assert(a@ =~= b@);
    true
}

} // verus!
