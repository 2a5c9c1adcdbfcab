use vstd::prelude::*;

use sha3::Digest;

use crate::codec::DIGEST_LEN;

verus! {

/// The SHA3-512 digest (FIPS 202) of a byte string.
pub uninterp spec fn sha3_512(data: Seq<u8>) -> Seq<u8>;

/// Relies on sha3's `Sha3_512` through the `Digest` trait (`new`, `update`, `finalize`): the
/// digest depends on the input alone and has 64 bytes.
#[verifier::external_body]
fn sha3_512_digest(data: &[u8]) -> (r: Vec<u8>)
    ensures
        r@ == sha3_512(data@),
        r@.len() == DIGEST_LEN,
{
    let mut hasher = sha3::Sha3_512::new();
    hasher.update(data);
    hasher.finalize().to_vec()
}

/// One-shot SHA3-512 hashing.
#[allow(non_camel_case_types)]
pub struct Sha3_512;

impl Sha3_512 {
    /// The SHA3-512 digest of `data`, of any length: always 64 bytes, and never an error.
    pub fn hash(data: &[u8]) -> (r: Vec<u8>)
        ensures
            r@ == sha3_512(data@),
            r@.len() == DIGEST_LEN,
    {
        sha3_512_digest(data)
    }
}

/// Hashing is pure: equal inputs give equal digests.
pub proof fn lemma_hash_pure(first: Seq<u8>, second: Seq<u8>, d1: Seq<u8>, d2: Seq<u8>)
    requires
        first == second,
        d1 == sha3_512(first),
        d2 == sha3_512(second),
    ensures
        d1 == d2,
{
}

} // verus!
