use vstd::prelude::*;

use crate::error::{Error, Field};

verus! {

/// Length of an ML-DSA-87 verifying (public) key.
pub const VERIFYING_KEY_LEN: usize = 2592;
/// Length of an ML-DSA-87 signing (private) key.
pub const SIGNING_KEY_LEN: usize = 4896;
/// Length of an ML-DSA-87 signature.
pub const SIGNATURE_LEN: usize = 4627;
/// Length of an ML-DSA key-generation seed.
pub const DSA_SEED_LEN: usize = 32;
/// Longest context string that ML-DSA binds into a signature.
pub const MAX_CONTEXT_LEN: usize = 255;
/// Length of an ML-KEM-1024 encapsulation (public) key.
pub const ENCAPSULATION_KEY_LEN: usize = 1568;
/// Length of an ML-KEM-1024 decapsulation (private) key.
pub const DECAPSULATION_KEY_LEN: usize = 3168;
/// Length of an ML-KEM-1024 ciphertext.
pub const CIPHERTEXT_LEN: usize = 1568;
/// Length of a shared secret.
pub const SHARED_SECRET_LEN: usize = 32;
/// Length of an ML-KEM key-generation seed: `d` followed by `z`.
pub const KEM_SEED_LEN: usize = 64;
/// Length of each half of an ML-KEM seed, and of the encapsulation randomness.
pub const KEM_HALF_SEED_LEN: usize = 32;
/// Length of a SHA3-512 digest.
pub const DIGEST_LEN: usize = 64;

/// What decoding `bytes` as an `N`-byte encoding of `field` gives.
pub open spec fn decoded<const N: usize>(field: Field, bytes: Seq<u8>) -> Result<Seq<u8>, Error> {
    if bytes.len() == N {
        Ok(bytes)
    } else {
        Err(Error::Encoding { field, expected: N, actual: bytes.len() as usize })
    }
}

/// Decoding the bytes of a valid encoding gives back that encoding.
pub proof fn lemma_round_trip<const N: usize>(field: Field, x: Seq<u8>)
    requires
        x.len() == N,
    ensures
        decoded::<N>(field, x) == Ok::<Seq<u8>, Error>(x),
{
}

/// An encoding of exactly `N` bytes.
pub struct Encoded<const N: usize> {
    bytes: Vec<u8>,
}

impl<const N: usize> View for Encoded<N> {
    type V = Seq<u8>;

    closed spec fn view(&self) -> Seq<u8> {
        self.bytes@
    }
}

impl<const N: usize> Encoded<N> {
    #[verifier::type_invariant]
    spec fn exact_length(self) -> bool {
        self.bytes@.len() == N
    }

    /// Takes `bytes` as an encoding of `field` if and only if it holds exactly `N` bytes.
    pub fn decode(field: Field, bytes: &[u8]) -> (r: Result<Self, Error>)
        ensures
            match r {
                Ok(e) => decoded::<N>(field, bytes@) == Ok::<Seq<u8>, Error>(e@),
                Err(e) => decoded::<N>(field, bytes@) == Err::<Seq<u8>, Error>(e),
            },
    {
        if bytes.len() == N {
            Ok(Encoded { bytes: vstd::slice::slice_to_vec(bytes) })
        } else {
            Err(Error::Encoding { field, expected: N, actual: bytes.len() })
        }
    }

    /// Wraps bytes already known to have the right length.
    pub(crate) fn from_vec(bytes: Vec<u8>) -> (r: Self)
        requires
            bytes@.len() == N,
        ensures
            r@ == bytes@,
    {
        Encoded { bytes }
    }

    /// The bytes of the encoding.
    pub fn encode(&self) -> (r: Vec<u8>)
        ensures
            r@ == self@,
            r@.len() == N,
    {
        proof {
            use_type_invariant(self);
        }
        self.bytes.clone()
    }

    /// The bytes of the encoding, borrowed.
    pub fn as_slice(&self) -> (r: &[u8])
        ensures
            r@ == self@,
            r@.len() == N,
    {
        proof {
            use_type_invariant(self);
        }
        self.bytes.as_slice()
    }
}

} // verus!
