use vstd::prelude::*;

use ml_dsa::{
    EncodedSignature, EncodedSigningKey, EncodedVerifyingKey, KeyGen, MlDsa87, Signature,
    SigningKey, VerifyingKey, B32,
};

use crate::codec::{
    decoded, Encoded, DSA_SEED_LEN, MAX_CONTEXT_LEN, SIGNATURE_LEN, SIGNING_KEY_LEN,
    VERIFYING_KEY_LEN,
};
use crate::error::{Error, Field};
use crate::random::random_bytes;

verus! {

/// The ML-DSA-87 key pair, (verifying key, signing key), that a 32-byte seed determines.
pub uninterp spec fn ml_dsa_key_pair(seed: Seq<u8>) -> (Seq<u8>, Seq<u8>);

/// Whether signature bytes of the right length decode to a signature.
pub uninterp spec fn ml_dsa_signature_decodes(sig: Seq<u8>) -> bool;

/// Whether a decodable signature is valid for a verifying key, a message and a context.
pub uninterp spec fn ml_dsa_verifies(vk: Seq<u8>, msg: Seq<u8>, ctx: Seq<u8>, sig: Seq<u8>) -> bool;

/// Relies on ml_dsa's `KeyGen::key_gen_internal` for ML-DSA-87 (FIPS 204, Algorithm 6) and on
/// the fixed-size `encode` of the two keys: the key pair depends on the seed alone.
#[verifier::external_body]
fn key_gen_internal(seed: &[u8]) -> (r: (Vec<u8>, Vec<u8>))
    requires
        seed@.len() == DSA_SEED_LEN,
    ensures
        (r.0@, r.1@) == ml_dsa_key_pair(seed@),
        r.0@.len() == VERIFYING_KEY_LEN,
        r.1@.len() == SIGNING_KEY_LEN,
{
    let xi = B32::try_from(seed).expect("seed length is checked by the caller");
    let pair = <MlDsa87 as KeyGen>::key_gen_internal(&xi);
    (pair.verifying_key().encode().to_vec(), pair.signing_key().encode().to_vec())
}

/// Relies on ml_dsa's `SigningKey::decode` and `SigningKey::sign_randomized` for ML-DSA-87
/// (FIPS 204, Algorithms 25 and 2), with rand's `OsRng` as the source of the 32 random
/// bytes. `decode` asserts that each 3-bit secret coefficient is at most 4, which `requires`
/// demands. The source returns an error for a context longer than 255 bytes and when the
/// random source fails. Its rejection-sampling loop only returns a signature that passes the
/// checks that make it decode and verify under the key pair of the signing key (FIPS 204
/// correctness); it encodes to the parameter set's fixed size.
#[verifier::external_body]
fn sign_randomized(sk: &[u8], msg: &[u8], ctx: &[u8]) -> (r: Option<Vec<u8>>)
    requires
        sk@.len() == SIGNING_KEY_LEN,
        secret_vectors_in_range(sk@),
    ensures
        ctx@.len() > MAX_CONTEXT_LEN ==> r is None,
        r matches Some(sig) ==> sig@.len() == SIGNATURE_LEN,
        r matches Some(sig) ==> ml_dsa_signature_decodes(sig@),
        r matches Some(sig) ==> forall|seed: Seq<u8>| #![trigger ml_dsa_key_pair(seed)]
            seed.len() == DSA_SEED_LEN && ml_dsa_key_pair(seed).1 == sk@
                ==> ml_dsa_verifies(ml_dsa_key_pair(seed).0, msg@, ctx@, sig@),
{
    let enc = EncodedSigningKey::<MlDsa87>::try_from(sk).expect("key length is checked");
    let key = SigningKey::<MlDsa87>::decode(&enc);
    match key.sign_randomized(msg, ctx, &mut rand::rngs::OsRng) {
        Ok(sig) => Some(sig.encode().to_vec()),
        Err(_) => None,
    }
}

/// Relies on ml_dsa's `Signature::decode` for ML-DSA-87 (FIPS 204, Algorithm 27): whether
/// the bytes hold a signature depends on the bytes alone.
#[verifier::external_body]
fn signature_decodes(sig: &[u8]) -> (r: bool)
    requires
        sig@.len() == SIGNATURE_LEN,
    ensures
        r == ml_dsa_signature_decodes(sig@),
{
    let enc = EncodedSignature::<MlDsa87>::try_from(sig).expect("length is checked");
    Signature::<MlDsa87>::decode(&enc).is_some()
}

/// Relies on ml_dsa's `VerifyingKey::decode` and `VerifyingKey::verify_with_context` for
/// ML-DSA-87 (FIPS 204, Algorithm 3): the answer depends on the inputs alone, and the source
/// answers `false` for a context longer than 255 bytes.
#[verifier::external_body]
fn verify_with_context(vk: &[u8], msg: &[u8], ctx: &[u8], sig: &[u8]) -> (r: bool)
    requires
        vk@.len() == VERIFYING_KEY_LEN,
        sig@.len() == SIGNATURE_LEN,
        ml_dsa_signature_decodes(sig@),
    ensures
        r == ml_dsa_verifies(vk@, msg@, ctx@, sig@),
        ctx@.len() > MAX_CONTEXT_LEN ==> !r,
{
    let vk = EncodedVerifyingKey::<MlDsa87>::try_from(vk).expect("length is checked");
    let sig = EncodedSignature::<MlDsa87>::try_from(sig).expect("length is checked");
    match Signature::<MlDsa87>::decode(&sig) {
        Some(sigma) => VerifyingKey::<MlDsa87>::decode(&vk).verify_with_context(msg, ctx, &sigma),
        None => false,
    }
}

/// Offset of the secret vectors s1 and s2 in a signing key, after rho, K and tr.
pub const SECRET_VECTORS_OFFSET: usize = 128;
/// The secret vectors take 1440 bytes: 480 groups of 3 bytes, each packing eight 3-bit
/// coefficients, least significant bits first.
pub const SECRET_VECTOR_GROUPS: usize = 480;
/// Largest packed secret coefficient: 2 * eta, with eta = 2 for ML-DSA-87.
pub const MAX_PACKED_COEFFICIENT: u32 = 4;

/// The 24-bit little-endian word of the `g`-th group of 3 bytes of the secret vectors.
pub open spec fn packed_group(sk: Seq<u8>, g: int) -> u32 {
    let base = SECRET_VECTORS_OFFSET + 3 * g;
    (sk[base] as u32) | ((sk[base + 1] as u32) << 8u32) | ((sk[base + 2] as u32) << 16u32)
}

/// Whether the `j`-th 3-bit coefficient of the `g`-th group is at most 4.
pub open spec fn coefficient_in_range(sk: Seq<u8>, g: int, j: int) -> bool {
    (packed_group(sk, g) >> ((3 * j) as u32)) & 7u32 <= MAX_PACKED_COEFFICIENT
}

/// Whether every packed coefficient of the secret vectors s1 and s2 of a signing key lies in
/// range, so that the key unpacks (FIPS 204, Algorithm 17 BitUnpack).
pub open spec fn secret_vectors_in_range(sk: Seq<u8>) -> bool {
    forall|g: int, j: int|
        0 <= g < SECRET_VECTOR_GROUPS && 0 <= j < 8 ==> #[trigger] coefficient_in_range(sk, g, j)
}

/// Checks that every packed secret coefficient of a signing key is at most 4.
pub fn check_secret_vectors(sk: &[u8]) -> (r: bool)
    requires
        sk@.len() == SIGNING_KEY_LEN,
    ensures
        r == secret_vectors_in_range(sk@),
{
    let mut g: usize = 0;
    while g < SECRET_VECTOR_GROUPS
        invariant
            g <= SECRET_VECTOR_GROUPS,
            sk@.len() == SIGNING_KEY_LEN,
            forall|h: int, j: int| 0 <= h < g && 0 <= j < 8 ==> #[trigger] coefficient_in_range(sk@, h, j),
        decreases SECRET_VECTOR_GROUPS - g,
    {
        let base: usize = SECRET_VECTORS_OFFSET + 3 * g;
        let w: u32 = (sk[base] as u32) | ((sk[base + 1] as u32) << 8u32) | ((sk[base + 2] as u32) << 16u32);
        assert(w == packed_group(sk@, g as int));
        let mut j: u32 = 0;
        while j < 8
            invariant
                j <= 8,
                g < SECRET_VECTOR_GROUPS,
                w == packed_group(sk@, g as int),
                forall|i: int| 0 <= i < j ==> #[trigger] coefficient_in_range(sk@, g as int, i),
            decreases 8 - j,
        {
            if (w >> (3 * j)) & 7 > MAX_PACKED_COEFFICIENT {
                assert(!coefficient_in_range(sk@, g as int, j as int));
                return false;
            }
            j = j + 1;
        }
        g = g + 1;
    }
    true
}

/// Whether `sig` is a signature that decodes and is valid for `msg` and `ctx` under the
/// verifying key of every key pair whose signing key is `sk`.
pub open spec fn signs(sk: Seq<u8>, msg: Seq<u8>, ctx: Seq<u8>, sig: Seq<u8>) -> bool {
    &&& ml_dsa_signature_decodes(sig)
    &&& forall|seed: Seq<u8>| #![trigger ml_dsa_key_pair(seed)]
        seed.len() == DSA_SEED_LEN && ml_dsa_key_pair(seed).1 == sk
            ==> ml_dsa_verifies(ml_dsa_key_pair(seed).0, msg, ctx, sig)
}

/// The error that signing owes before any randomness is drawn, if any: a signing key of the
/// wrong length, one whose secret coefficients are out of range, or a context longer than
/// 255 bytes.
pub open spec fn signing_error(sk: Seq<u8>, ctx: Seq<u8>) -> Option<Error> {
    if sk.len() != SIGNING_KEY_LEN {
        Some(Error::Encoding { field: Field::SigningKey, expected: SIGNING_KEY_LEN, actual: sk.len() as usize })
    } else if !secret_vectors_in_range(sk) {
        Some(Error::SigningKeyDecode)
    } else if ctx.len() > MAX_CONTEXT_LEN {
        Some(Error::Signing)
    } else {
        None
    }
}

/// The context string that a call binds: the one given, or the empty string.
pub open spec fn context_bytes(context: Option<Vec<u8>>) -> Seq<u8> {
    match context {
        Some(c) => c@,
        None => Seq::empty(),
    }
}

/// What key generation from a caller's seed gives: the key pair that the seed determines,
/// or a seed-length error unless the seed has exactly 32 bytes.
pub open spec fn seeded_key_pair(seed: Seq<u8>) -> Result<(Seq<u8>, Seq<u8>), Error> {
    if seed.len() == DSA_SEED_LEN {
        Ok(ml_dsa_key_pair(seed))
    } else {
        Err(Error::SeedLength { expected: DSA_SEED_LEN, actual: seed.len() as usize })
    }
}

/// Whether `pair` is the key pair of some 32-byte seed.
pub open spec fn is_generated_pair(pair: (Seq<u8>, Seq<u8>)) -> bool {
    exists|seed: Seq<u8>| seed.len() == DSA_SEED_LEN && #[trigger] ml_dsa_key_pair(seed) == pair
}

/// What decoding a (verifying key, signing key) pair of buffers gives: a length error, an
/// error for a signing key whose secret coefficients are out of range, or the two keys.
pub open spec fn decoded_pair(vk: Seq<u8>, sk: Seq<u8>) -> Result<(Seq<u8>, Seq<u8>), Error> {
    match decoded::<VERIFYING_KEY_LEN>(Field::VerifyingKey, vk) {
        Err(e) => Err(e),
        Ok(v) => match decoded::<SIGNING_KEY_LEN>(Field::SigningKey, sk) {
            Err(e) => Err(e),
            Ok(s) => if secret_vectors_in_range(s) {
                Ok((v, s))
            } else {
                Err(Error::SigningKeyDecode)
            },
        },
    }
}

/// What verification answers: a length error for a malformed key or signature, a decoding
/// error for signature bytes that hold no signature, `false` for a context longer than 255
/// bytes, and otherwise whether the signature is valid.
pub open spec fn verification(vk: Seq<u8>, msg: Seq<u8>, sig: Seq<u8>, ctx: Seq<u8>) -> Result<bool, Error> {
    if vk.len() != VERIFYING_KEY_LEN {
        Err(Error::Encoding { field: Field::VerifyingKey, expected: VERIFYING_KEY_LEN, actual: vk.len() as usize })
    } else if sig.len() != SIGNATURE_LEN {
        Err(Error::Encoding { field: Field::Signature, expected: SIGNATURE_LEN, actual: sig.len() as usize })
    } else if !ml_dsa_signature_decodes(sig) {
        Err(Error::SignatureDecode)
    } else if ctx.len() > MAX_CONTEXT_LEN {
        Ok(false)
    } else {
        Ok(ml_dsa_verifies(vk, msg, ctx, sig))
    }
}

/// An ML-DSA-87 key pair as encoded bytes.
pub struct MlDsaKeypair {
    public_key: Encoded<VERIFYING_KEY_LEN>,
    private_key: Encoded<SIGNING_KEY_LEN>,
}

impl View for MlDsaKeypair {
    type V = (Seq<u8>, Seq<u8>);

    closed spec fn view(&self) -> (Seq<u8>, Seq<u8>) {
        (self.public_key@, self.private_key@)
    }
}

/// The bytes that a key-generation result holds, or its error.
pub open spec fn keypair_outcome(r: Result<MlDsaKeypair, Error>) -> Result<(Seq<u8>, Seq<u8>), Error> {
    match r {
        Ok(k) => Ok(k@),
        Err(e) => Err(e),
    }
}

impl MlDsaKeypair {
    /// The verifying (public) key.
    pub fn public_key(&self) -> (r: Vec<u8>)
        ensures
            r@ == self@.0,
            r@.len() == VERIFYING_KEY_LEN,
    {
        self.public_key.encode()
    }

    /// The signing (private) key.
    pub fn private_key(&self) -> (r: Vec<u8>)
        ensures
            r@ == self@.1,
            r@.len() == SIGNING_KEY_LEN,
    {
        self.private_key.encode()
    }
}

/// The ML-DSA-87 operations; a value holds a decoded key pair for repeated use.
pub struct MlDsa {
    verifying_key: Encoded<VERIFYING_KEY_LEN>,
    signing_key: Encoded<SIGNING_KEY_LEN>,
}

impl View for MlDsa {
    type V = (Seq<u8>, Seq<u8>);

    closed spec fn view(&self) -> (Seq<u8>, Seq<u8>) {
        (self.verifying_key@, self.signing_key@)
    }
}

impl MlDsa {
    /// Derives the key pair of a seed, which must hold exactly 32 bytes.
    fn keygen_deterministic(seed: &[u8]) -> (r: Result<MlDsaKeypair, Error>)
        ensures
            keypair_outcome(r) == seeded_key_pair(seed@),
    {
        if seed.len() != DSA_SEED_LEN {
            return Err(Error::SeedLength { expected: DSA_SEED_LEN, actual: seed.len() });
        }
        let (vk, sk) = key_gen_internal(seed);
        Ok(MlDsaKeypair { public_key: Encoded::from_vec(vk), private_key: Encoded::from_vec(sk) })
    }

    /// Derives a key pair from a seed freshly drawn from the secure random source.
    fn keygen_random() -> (r: Result<MlDsaKeypair, Error>)
        ensures
            match r {
                Ok(k) => is_generated_pair(k@),
                Err(e) => e == Error::Randomness,
            },
    {
        match random_bytes(DSA_SEED_LEN) {
            None => Err(Error::Randomness),
            Some(xi) => {
                let r = Self::keygen_deterministic(xi.as_slice());
                assert(r matches Ok(k) ==> ml_dsa_key_pair(xi@) == k@);
                r
            },
        }
    }

    /// Generates a key pair (FIPS 204 ML-DSA.KeyGen). With a seed, which must hold exactly 32
    /// bytes, the pair is the one that the seed determines; without one, the seed is drawn
    /// from the secure random source.
    pub fn keygen_internal(seed: Option<Vec<u8>>) -> (r: Result<MlDsaKeypair, Error>)
        ensures
            seed matches Some(s) ==> keypair_outcome(r) == seeded_key_pair(s@),
            seed is None ==> match r {
                Ok(k) => is_generated_pair(k@),
                Err(e) => e == Error::Randomness,
            },
    {
        match seed {
            Some(s) => Self::keygen_deterministic(s.as_slice()),
            None => Self::keygen_random(),
        }
    }

    /// Generates a fresh random key pair and holds it.
    pub fn new() -> (r: Result<Self, Error>)
        ensures
            match r {
                Ok(k) => is_generated_pair(k@),
                Err(e) => e == Error::Randomness,
            },
    {
        let pair = Self::keygen_random()?;
        Ok(MlDsa { verifying_key: pair.public_key, signing_key: pair.private_key })
    }

    /// Holds a key pair given as bytes, after checking the length of each key and the range
    /// of the signing key's secret coefficients.
    pub fn decode(verifying_key: &[u8], signing_key: &[u8]) -> (r: Result<Self, Error>)
        ensures
            match r {
                Ok(k) => decoded_pair(verifying_key@, signing_key@) == Ok::<(Seq<u8>, Seq<u8>), Error>(k@),
                Err(e) => decoded_pair(verifying_key@, signing_key@) == Err::<(Seq<u8>, Seq<u8>), Error>(e),
            },
    {
        let verifying_key = Encoded::<VERIFYING_KEY_LEN>::decode(Field::VerifyingKey, verifying_key)?;
        let signing_key = Encoded::<SIGNING_KEY_LEN>::decode(Field::SigningKey, signing_key)?;
        if !check_secret_vectors(signing_key.as_slice()) {
            return Err(Error::SigningKeyDecode);
        }
        Ok(MlDsa { verifying_key, signing_key })
    }

    /// The verifying (public) key.
    pub fn verifying_key(&self) -> (r: Vec<u8>)
        ensures
            r@ == self@.0,
            r@.len() == VERIFYING_KEY_LEN,
    {
        self.verifying_key.encode()
    }

    /// The signing (private) key.
    pub fn signing_key(&self) -> (r: Vec<u8>)
        ensures
            r@ == self@.1,
            r@.len() == SIGNING_KEY_LEN,
    {
        self.signing_key.encode()
    }

    /// Signs a message with the hedged (randomized) ML-DSA.Sign of FIPS 204, binding the
    /// context string, empty when none is given. A malformed signing key, a context longer
    /// than 255 bytes, or a failing random source is an error; a signature that comes back
    /// verifies for the message and context under the key pair of the signing key.
    pub fn sign(private_key: &[u8], message: &[u8], context: Option<Vec<u8>>) -> (r: Result<Vec<u8>, Error>)
        ensures
            match signing_error(private_key@, context_bytes(context)) {
                Some(e) => r == Err::<Vec<u8>, Error>(e),
                None => match r {
                    Ok(sig) => sig@.len() == SIGNATURE_LEN && signs(private_key@, message@, context_bytes(context), sig@),
                    Err(e) => e == Error::Signing,
                },
            },
    {
        let key = Encoded::<SIGNING_KEY_LEN>::decode(Field::SigningKey, private_key)?;
        if !check_secret_vectors(key.as_slice()) {
            return Err(Error::SigningKeyDecode);
        }
        let ctx: Vec<u8> = match context {
            Some(c) => c,
            None => Vec::new(),
        };
        match sign_randomized(key.as_slice(), message, ctx.as_slice()) {
            Some(sig) => Ok(sig),
            None => Err(Error::Signing),
        }
    }

    /// Verifies a signature over a message and a context string, empty when none is given
    /// (FIPS 204 ML-DSA.Verify). Malformed key or signature bytes are errors; a signature
    /// that is well formed but not valid gives `Ok(false)`.
    pub fn verify(
        public_key: &[u8],
        message: &[u8],
        signature: &[u8],
        context: Option<Vec<u8>>,
    ) -> (r: Result<bool, Error>)
        ensures
            r == verification(public_key@, message@, signature@, context_bytes(context)),
    {
        let vk = Encoded::<VERIFYING_KEY_LEN>::decode(Field::VerifyingKey, public_key)?;
        let sig = Encoded::<SIGNATURE_LEN>::decode(Field::Signature, signature)?;
        let ctx: Vec<u8> = match context {
            Some(c) => c,
            None => Vec::new(),
        };
        if !signature_decodes(sig.as_slice()) {
            return Err(Error::SignatureDecode);
        }
        Ok(verify_with_context(vk.as_slice(), message, ctx.as_slice(), sig.as_slice()))
    }
}

/// Key generation from a seed is a function of the seed: it succeeds exactly on 32-byte
/// seeds, and two calls handed the same seed give byte-identical key pairs.
pub proof fn lemma_seeded_keygen_deterministic(
    seed: Seq<u8>,
    first: Result<(Seq<u8>, Seq<u8>), Error>,
    second: Result<(Seq<u8>, Seq<u8>), Error>,
)
    requires
        first == seeded_key_pair(seed),
        second == seeded_key_pair(seed),
    ensures
        first == second,
        first is Ok <==> seed.len() == DSA_SEED_LEN,
{
}

/// Decoding the bytes of a valid key pair gives back the same key pair.
pub proof fn lemma_keypair_round_trip(vk: Seq<u8>, sk: Seq<u8>)
    requires
        vk.len() == VERIFYING_KEY_LEN,
        sk.len() == SIGNING_KEY_LEN,
        secret_vectors_in_range(sk),
    ensures
        decoded_pair(vk, sk) == Ok::<(Seq<u8>, Seq<u8>), Error>((vk, sk)),
{
}

/// A signature made with the signing key of a generated key pair verifies for the same
/// message and context under that pair's verifying key.
pub proof fn lemma_sign_then_verify(
    seed: Seq<u8>,
    pair: (Seq<u8>, Seq<u8>),
    msg: Seq<u8>,
    ctx: Seq<u8>,
    sig: Seq<u8>,
)
    requires
        seeded_key_pair(seed) == Ok::<(Seq<u8>, Seq<u8>), Error>(pair),
        pair.0.len() == VERIFYING_KEY_LEN,
        ctx.len() <= MAX_CONTEXT_LEN,
        sig.len() == SIGNATURE_LEN,
        signs(pair.1, msg, ctx, sig),
    ensures
        verification(pair.0, msg, sig, ctx) == Ok::<bool, Error>(true),
{
    assert(ml_dsa_key_pair(seed) == pair);
}

/// A context longer than 255 bytes never verifies.
pub proof fn lemma_long_context_rejected(vk: Seq<u8>, msg: Seq<u8>, sig: Seq<u8>, ctx: Seq<u8>)
    requires
        ctx.len() > MAX_CONTEXT_LEN,
    ensures
        verification(vk, msg, sig, ctx) != Ok::<bool, Error>(true),
{
}

} // verus!
