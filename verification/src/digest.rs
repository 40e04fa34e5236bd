//! The content hasher: a stable digest over a blob's bytes. Digest equality
//! is the sole criterion for "same content".

use vstd::prelude::*;

verus! {

/// Number of bytes in a content digest (a 256-bit digest).
pub const DIGEST_LEN: usize = 32;

/// The digest that the content hasher assigns to a byte sequence; a pure
/// function of the bytes alone.
pub uninterp spec fn digest_of(bytes: Seq<u8>) -> Seq<u8>;

/// Relies on sha2::Sha256 (through its Digest::digest one-shot): returns the
/// 32-byte SHA-256 digest of the input, a function of the input bytes alone.
#[verifier::external_body]
fn sha256_of(bytes: &[u8]) -> (r: Vec<u8>)
    ensures
        r@ == digest_of(bytes@),
        r@.len() == DIGEST_LEN,
{
    let d = <sha2::Sha256 as sha2::Digest>::digest(bytes);
    d.as_slice().to_vec()
}

/// A content digest. Holds the raw digest bytes.
pub struct Digest {
    bytes: Vec<u8>,
}

impl View for Digest {
    type V = Seq<u8>;

    closed spec fn view(&self) -> Seq<u8> {
        self.bytes@
    }
}

impl Digest {
    /// A well-formed digest has exactly `DIGEST_LEN` bytes.
    pub open spec fn wf(&self) -> bool {
        self@.len() == DIGEST_LEN
    }

    pub fn len(&self) -> (n: usize)
        ensures
            n == self@.len(),
    {
        self.bytes.len()
    }

    /// Byte-for-byte digest equality: the criterion by which two blobs count
    /// as the same content.
    pub fn eq_digest(&self, other: &Digest) -> (r: bool)
        ensures
            r == (self@ == other@),
    {
        if self.bytes.len() != other.bytes.len() {
            return false;
        }
        let n = self.bytes.len();
        let mut i: usize = 0;
        while i < n
            invariant
                i <= n,
                n == self.bytes@.len(),
                n == other.bytes@.len(),
                forall|j: int| 0 <= j < i ==> self.bytes@[j] == other.bytes@[j],
            decreases n - i,
        {
            if self.bytes[i] != other.bytes[i] {
                return false;
            }
            i += 1;
        }
        proof {
            assert(self@ =~= other@);
        }
        true
    }

    /// Build a digest from raw digest bytes, as a fixture or an external
    /// exporter supplies them.
    pub fn from_bytes(bytes: Vec<u8>) -> (d: Digest)
        requires
            bytes@.len() == DIGEST_LEN,
        ensures
            d@ == bytes@,
            d.wf(),
    {
        Digest { bytes }
    }

    /// The raw digest bytes.
    pub fn to_vec(&self) -> (r: Vec<u8>)
        ensures
            r@ == self@,
    {
        let d = self.duplicate();
        d.bytes
    }

    /// Verified deep copy of a digest.
    pub fn duplicate(&self) -> (r: Digest)
        ensures
            r@ == self@,
    {
        let n = self.bytes.len();
        let mut v: Vec<u8> = Vec::new();
        let mut i: usize = 0;
        while i < n
            invariant
                i <= n,
                n == self.bytes@.len(),
                v@ =~= self.bytes@.subrange(0, i as int),
            decreases n - i,
        {
            v.push(self.bytes[i]);
            i += 1;
        }
        proof {
            assert(v@ =~= self@);
        }
        Digest { bytes: v }
    }
}

/// Computes the content digest of a byte sequence. Deterministic, total:
/// every byte sequence (the empty one included) has a well-defined digest.
pub fn hash_bytes(bytes: &[u8]) -> (d: Digest)
    ensures
        d@ == digest_of(bytes@),
        d.wf(),
{
    Digest { bytes: sha256_of(bytes) }
}

/// Law: the content hasher is deterministic — equal byte sequences receive
/// equal digests. The converse (distinct byte sequences receive distinct
/// digests) is the collision-resistance assumption on the underlying hash;
/// it is not stated here, and the index's dedup contracts are phrased over
/// digests alone, so nothing in this library depends on it.
pub proof fn lemma_digest_deterministic(b1: Seq<u8>, b2: Seq<u8>)
    requires
        b1 == b2,
    ensures
        digest_of(b1) == digest_of(b2),
{
}

} // verus!
