use vstd::prelude::*;

use ml_kem::kem::{Decapsulate, DecapsulationKey, EncapsulationKey};
use ml_kem::{Ciphertext, EncapsulateDeterministic, EncodedSizeUser, KemCore, MlKem1024, MlKem1024Params, B32};

use crate::codec::{
    decoded, Encoded, CIPHERTEXT_LEN, DECAPSULATION_KEY_LEN, ENCAPSULATION_KEY_LEN,
    KEM_HALF_SEED_LEN, KEM_SEED_LEN, SHARED_SECRET_LEN,
};
use crate::error::{Error, Field};
use crate::random::random_bytes;

verus! {

/// The ML-KEM-1024 key pair, (encapsulation key, decapsulation key), that the seed halves
/// `d` and `z` determine.
pub uninterp spec fn ml_kem_key_pair(d: Seq<u8>, z: Seq<u8>) -> (Seq<u8>, Seq<u8>);

/// The (ciphertext, shared secret) that encapsulating to a key with the randomness `m` gives.
pub uninterp spec fn ml_kem_encapsulation(ek: Seq<u8>, m: Seq<u8>) -> (Seq<u8>, Seq<u8>);

/// The shared secret that decapsulating a ciphertext with a key gives: the encapsulated
/// secret, or the implicit-rejection value for a ciphertext that does not re-encrypt.
pub uninterp spec fn ml_kem_decapsulation(dk: Seq<u8>, ct: Seq<u8>) -> Seq<u8>;

/// Relies on ml_kem's `KemCore::generate_deterministic` for ML-KEM-1024 (FIPS 203,
/// Algorithm 16) and on the fixed-size `as_bytes` of the two keys: the key pair depends on
/// `d` and `z` alone.
#[verifier::external_body]
fn generate_deterministic(d: &[u8], z: &[u8]) -> (r: (Vec<u8>, Vec<u8>))
    requires
        d@.len() == KEM_HALF_SEED_LEN,
        z@.len() == KEM_HALF_SEED_LEN,
    ensures
        (r.0@, r.1@) == ml_kem_key_pair(d@, z@),
        r.0@.len() == ENCAPSULATION_KEY_LEN,
        r.1@.len() == DECAPSULATION_KEY_LEN,
{
    let d = B32::try_from(d).expect("length is checked");
    let z = B32::try_from(z).expect("length is checked");
    let (dk, ek) = MlKem1024::generate_deterministic(&d, &z);
    (ek.as_bytes().to_vec(), dk.as_bytes().to_vec())
}

/// Relies on ml_kem's `EncapsulationKey::from_bytes` and
/// `EncapsulateDeterministic::encapsulate_deterministic` for ML-KEM-1024 (FIPS 203,
/// Algorithm 17): the outcome depends on the key and `m` alone, the source returns `Ok` on
/// every path, and a ciphertext and a shared secret have the parameter set's fixed sizes.
#[verifier::external_body]
fn encapsulate_deterministic(ek: &[u8], m: &[u8]) -> (r: (Vec<u8>, Vec<u8>))
    requires
        ek@.len() == ENCAPSULATION_KEY_LEN,
        m@.len() == KEM_HALF_SEED_LEN,
    ensures
        (r.0@, r.1@) == ml_kem_encapsulation(ek@, m@),
        r.0@.len() == CIPHERTEXT_LEN,
        r.1@.len() == SHARED_SECRET_LEN,
{
    let ek = ml_kem::Encoded::<EncapsulationKey<MlKem1024Params>>::try_from(ek).expect("length is checked");
    let m = B32::try_from(m).expect("length is checked");
    let key = EncapsulationKey::<MlKem1024Params>::from_bytes(&ek);
    let (ct, ss) = key.encapsulate_deterministic(&m).expect("the source never fails here");
    (ct.to_vec(), ss.to_vec())
}

/// Relies on ml_kem's `DecapsulationKey::from_bytes` and `Decapsulate::decapsulate` for
/// ML-KEM-1024 (FIPS 203, Algorithm 18): the outcome depends on the key and the ciphertext
/// alone, the source returns `Ok` on every path (implicit rejection gives a value, not an
/// error), and a shared secret has 32 bytes.
#[verifier::external_body]
fn decapsulate(dk: &[u8], ct: &[u8]) -> (r: Vec<u8>)
    requires
        dk@.len() == DECAPSULATION_KEY_LEN,
        ct@.len() == CIPHERTEXT_LEN,
    ensures
        r@ == ml_kem_decapsulation(dk@, ct@),
        r@.len() == SHARED_SECRET_LEN,
{
    let dk = ml_kem::Encoded::<DecapsulationKey<MlKem1024Params>>::try_from(dk).expect("length is checked");
    let ct = Ciphertext::<MlKem1024>::try_from(ct).expect("length is checked");
    let key = DecapsulationKey::<MlKem1024Params>::from_bytes(&dk);
    key.decapsulate(&ct).expect("the source never fails here").to_vec()
}

/// What key generation from a caller's seed gives: the key pair that its halves `d` (the
/// first 32 bytes) and `z` (the last 32) determine, or a seed-length error unless the seed
/// has exactly 64 bytes.
pub open spec fn seeded_key_pair(seed: Seq<u8>) -> Result<(Seq<u8>, Seq<u8>), Error> {
    if seed.len() == KEM_SEED_LEN {
        Ok(ml_kem_key_pair(seed.subrange(0, KEM_HALF_SEED_LEN as int), seed.subrange(KEM_HALF_SEED_LEN as int, KEM_SEED_LEN as int)))
    } else {
        Err(Error::SeedLength { expected: KEM_SEED_LEN, actual: seed.len() as usize })
    }
}

/// Whether `pair` is the key pair of some 64-byte seed.
pub open spec fn is_generated_pair(pair: (Seq<u8>, Seq<u8>)) -> bool {
    exists|d: Seq<u8>, z: Seq<u8>|
        d.len() == KEM_HALF_SEED_LEN && z.len() == KEM_HALF_SEED_LEN && #[trigger] ml_kem_key_pair(d, z) == pair
}

/// What decoding an (encapsulation key, decapsulation key) pair of buffers gives.
pub open spec fn decoded_pair(ek: Seq<u8>, dk: Seq<u8>) -> Result<(Seq<u8>, Seq<u8>), Error> {
    match decoded::<ENCAPSULATION_KEY_LEN>(Field::EncapsulationKey, ek) {
        Err(e) => Err(e),
        Ok(e) => match decoded::<DECAPSULATION_KEY_LEN>(Field::DecapsulationKey, dk) {
            Err(err) => Err(err),
            Ok(d) => Ok((e, d)),
        },
    }
}

/// What encapsulating to `ek` with the randomness `m` gives: a length error for a
/// malformed key or randomness, else the algorithm's (ciphertext, shared secret).
pub open spec fn encapsulation(ek: Seq<u8>, m: Seq<u8>) -> Result<(Seq<u8>, Seq<u8>), Error> {
    if ek.len() != ENCAPSULATION_KEY_LEN {
        Err(Error::Encoding { field: Field::EncapsulationKey, expected: ENCAPSULATION_KEY_LEN, actual: ek.len() as usize })
    } else if m.len() != KEM_HALF_SEED_LEN {
        Err(Error::SeedLength { expected: KEM_HALF_SEED_LEN, actual: m.len() as usize })
    } else {
        Ok(ml_kem_encapsulation(ek, m))
    }
}

/// What decapsulating `ct` with `dk` gives: a length error for a malformed key or
/// ciphertext, else the algorithm's shared secret.
pub open spec fn decapsulation(dk: Seq<u8>, ct: Seq<u8>) -> Result<Seq<u8>, Error> {
    if dk.len() != DECAPSULATION_KEY_LEN {
        Err(Error::Encoding { field: Field::DecapsulationKey, expected: DECAPSULATION_KEY_LEN, actual: dk.len() as usize })
    } else if ct.len() != CIPHERTEXT_LEN {
        Err(Error::Encoding { field: Field::Ciphertext, expected: CIPHERTEXT_LEN, actual: ct.len() as usize })
    } else {
        Ok(ml_kem_decapsulation(dk, ct))
    }
}

/// An ML-KEM-1024 key pair as encoded bytes.
pub struct MlKemKeypair {
    encapsulation_key: Encoded<ENCAPSULATION_KEY_LEN>,
    decapsulation_key: Encoded<DECAPSULATION_KEY_LEN>,
}

impl View for MlKemKeypair {
    type V = (Seq<u8>, Seq<u8>);

    closed spec fn view(&self) -> (Seq<u8>, Seq<u8>) {
        (self.encapsulation_key@, self.decapsulation_key@)
    }
}

/// The bytes that a key-generation result holds, or its error.
pub open spec fn keypair_outcome(r: Result<MlKemKeypair, Error>) -> Result<(Seq<u8>, Seq<u8>), Error> {
    match r {
        Ok(k) => Ok(k@),
        Err(e) => Err(e),
    }
}

impl MlKemKeypair {
    /// The encapsulation (public) key.
    pub fn encapsulation_key(&self) -> (r: Vec<u8>)
        ensures
            r@ == self@.0,
            r@.len() == ENCAPSULATION_KEY_LEN,
    {
        self.encapsulation_key.encode()
    }

    /// The decapsulation (private) key.
    pub fn decapsulation_key(&self) -> (r: Vec<u8>)
        ensures
            r@ == self@.1,
            r@.len() == DECAPSULATION_KEY_LEN,
    {
        self.decapsulation_key.encode()
    }
}

/// The outcome of an encapsulation: a ciphertext to send and the shared secret it carries.
pub struct MlKemEncapsulation {
    ciphertext: Encoded<CIPHERTEXT_LEN>,
    shared_secret: Encoded<SHARED_SECRET_LEN>,
}

impl View for MlKemEncapsulation {
    type V = (Seq<u8>, Seq<u8>);

    closed spec fn view(&self) -> (Seq<u8>, Seq<u8>) {
        (self.ciphertext@, self.shared_secret@)
    }
}

impl MlKemEncapsulation {
    /// The ciphertext, safe to send to the holder of the decapsulation key.
    pub fn ciphertext(&self) -> (r: Vec<u8>)
        ensures
            r@ == self@.0,
            r@.len() == CIPHERTEXT_LEN,
    {
        self.ciphertext.encode()
    }

    /// The shared secret, to be kept secret.
    pub fn shared_secret(&self) -> (r: Vec<u8>)
        ensures
            r@ == self@.1,
            r@.len() == SHARED_SECRET_LEN,
    {
        self.shared_secret.encode()
    }
}

/// The ML-KEM-1024 operations; a value holds a decoded key pair for repeated use.
pub struct MlKem {
    decapsulation_key: Encoded<DECAPSULATION_KEY_LEN>,
    encapsulation_key: Encoded<ENCAPSULATION_KEY_LEN>,
}

impl View for MlKem {
    type V = (Seq<u8>, Seq<u8>);

    closed spec fn view(&self) -> (Seq<u8>, Seq<u8>) {
        (self.encapsulation_key@, self.decapsulation_key@)
    }
}

impl MlKem {
    /// Derives the key pair of a seed, which must hold exactly 64 bytes: `d`, then `z`.
    fn key_gen_deterministic(seed: &[u8]) -> (r: Result<MlKemKeypair, Error>)
        ensures
            keypair_outcome(r) == seeded_key_pair(seed@),
    {
        if seed.len() != KEM_SEED_LEN {
            return Err(Error::SeedLength { expected: KEM_SEED_LEN, actual: seed.len() });
        }
        let d = vstd::slice::slice_subrange(seed, 0, KEM_HALF_SEED_LEN);
        let z = vstd::slice::slice_subrange(seed, KEM_HALF_SEED_LEN, KEM_SEED_LEN);
        let (ek, dk) = generate_deterministic(d, z);
        Ok(MlKemKeypair { encapsulation_key: Encoded::from_vec(ek), decapsulation_key: Encoded::from_vec(dk) })
    }

    /// Derives a key pair from `d` and `z` freshly drawn from the secure random source.
    fn key_gen_random() -> (r: Result<MlKemKeypair, Error>)
        ensures
            match r {
                Ok(k) => is_generated_pair(k@),
                Err(e) => e == Error::Randomness,
            },
    {
        match random_bytes(KEM_SEED_LEN) {
            None => Err(Error::Randomness),
            Some(seed) => {
                let r = Self::key_gen_deterministic(seed.as_slice());
                assert(r matches Ok(k) ==> ml_kem_key_pair(
                    seed@.subrange(0, KEM_HALF_SEED_LEN as int),
                    seed@.subrange(KEM_HALF_SEED_LEN as int, KEM_SEED_LEN as int),
                ) == k@);
                r
            },
        }
    }

    /// Generates a key pair (FIPS 203 ML-KEM.KeyGen). With a seed, which must hold exactly
    /// 64 bytes, the pair is the one that its halves `d` and `z` determine; without one, both
    /// halves are drawn from the secure random source.
    pub fn keygen(seed: Option<Vec<u8>>) -> (r: Result<MlKemKeypair, Error>)
        ensures
            seed matches Some(s) ==> keypair_outcome(r) == seeded_key_pair(s@),
            seed is None ==> match r {
                Ok(k) => is_generated_pair(k@),
                Err(e) => e == Error::Randomness,
            },
    {
        match seed {
            Some(s) => Self::key_gen_deterministic(s.as_slice()),
            None => Self::key_gen_random(),
        }
    }

    /// Generates a fresh random key pair and holds it.
    pub fn new() -> (r: Result<Self, Error>)
        ensures
            match r {
                Ok(k) => is_generated_pair(k@),
                Err(e) => e == Error::Randomness,
            },
    {
        let pair = Self::key_gen_random()?;
        Ok(MlKem { decapsulation_key: pair.decapsulation_key, encapsulation_key: pair.encapsulation_key })
    }

    /// Holds a key pair given as bytes, after checking the length of each key.
    pub fn decode(encapsulation_key: &[u8], decapsulation_key: &[u8]) -> (r: Result<Self, Error>)
        ensures
            match r {
                Ok(k) => decoded_pair(encapsulation_key@, decapsulation_key@) == Ok::<(Seq<u8>, Seq<u8>), Error>(k@),
                Err(e) => decoded_pair(encapsulation_key@, decapsulation_key@) == Err::<(Seq<u8>, Seq<u8>), Error>(e),
            },
    {
        let encapsulation_key = Encoded::<ENCAPSULATION_KEY_LEN>::decode(Field::EncapsulationKey, encapsulation_key)?;
        let decapsulation_key = Encoded::<DECAPSULATION_KEY_LEN>::decode(Field::DecapsulationKey, decapsulation_key)?;
        Ok(MlKem { decapsulation_key, encapsulation_key })
    }

    /// The encapsulation (public) key.
    pub fn encapsulation_key(&self) -> (r: Vec<u8>)
        ensures
            r@ == self@.0,
            r@.len() == ENCAPSULATION_KEY_LEN,
    {
        self.encapsulation_key.encode()
    }

    /// The decapsulation (private) key.
    pub fn decapsulation_key(&self) -> (r: Vec<u8>)
        ensures
            r@ == self@.1,
            r@.len() == DECAPSULATION_KEY_LEN,
    {
        self.decapsulation_key.encode()
    }

    /// Encapsulates to a key with given 32 bytes of randomness `m` (FIPS 203
    /// ML-KEM.Encaps_internal). Only known-answer checks should choose `m`: the security of
    /// the shared secret rests on `m` being random.
    pub fn encaps_internal(encapsulation_key: &[u8], m: &[u8]) -> (r: Result<MlKemEncapsulation, Error>)
        ensures
            match r {
                Ok(e) => encapsulation(encapsulation_key@, m@) == Ok::<(Seq<u8>, Seq<u8>), Error>(e@),
                Err(e) => encapsulation(encapsulation_key@, m@) == Err::<(Seq<u8>, Seq<u8>), Error>(e),
            },
    {
        let ek = Encoded::<ENCAPSULATION_KEY_LEN>::decode(Field::EncapsulationKey, encapsulation_key)?;
        if m.len() != KEM_HALF_SEED_LEN {
            return Err(Error::SeedLength { expected: KEM_HALF_SEED_LEN, actual: m.len() });
        }
        let (ct, ss) = encapsulate_deterministic(ek.as_slice(), m);
        Ok(MlKemEncapsulation { ciphertext: Encoded::from_vec(ct), shared_secret: Encoded::from_vec(ss) })
    }

    /// Encapsulates a fresh shared secret to a key (FIPS 203 ML-KEM.Encaps), drawing its 32
    /// bytes of randomness from the secure random source.
    pub fn encaps(encapsulation_key: &[u8]) -> (r: Result<MlKemEncapsulation, Error>)
        ensures
            encapsulation_key@.len() != ENCAPSULATION_KEY_LEN ==> r == Err::<MlKemEncapsulation, Error>(Error::Encoding {
                field: Field::EncapsulationKey,
                expected: ENCAPSULATION_KEY_LEN,
                actual: encapsulation_key@.len() as usize,
            }),
            encapsulation_key@.len() == ENCAPSULATION_KEY_LEN ==> match r {
                Ok(e) => exists|m: Seq<u8>| m.len() == KEM_HALF_SEED_LEN
                    && #[trigger] ml_kem_encapsulation(encapsulation_key@, m) == e@,
                Err(e) => e == Error::Randomness,
            },
    {
        if encapsulation_key.len() != ENCAPSULATION_KEY_LEN {
            return Err(Error::Encoding {
                field: Field::EncapsulationKey,
                expected: ENCAPSULATION_KEY_LEN,
                actual: encapsulation_key.len(),
            });
        }
        match random_bytes(KEM_HALF_SEED_LEN) {
            None => Err(Error::Randomness),
            Some(m) => {
                let r = Self::encaps_internal(encapsulation_key, m.as_slice());
                assert(r matches Ok(e) ==> ml_kem_encapsulation(encapsulation_key@, m@) == e@);
                r
            },
        }
    }

    /// Recovers the shared secret that a ciphertext carries (FIPS 203 ML-KEM.Decaps). A
    /// ciphertext made for another key still gives 32 bytes, the algorithm's implicit
    /// rejection value, not an error.
    pub fn decaps(decapsulation_key: &[u8], ciphertext: &[u8]) -> (r: Result<Vec<u8>, Error>)
        ensures
            decapsulation_key@.len() == DECAPSULATION_KEY_LEN && ciphertext@.len() == CIPHERTEXT_LEN
                ==> (r matches Ok(ss) && ss@ == ml_kem_decapsulation(decapsulation_key@, ciphertext@)
                && ss@.len() == SHARED_SECRET_LEN),
            match r {
                Ok(ss) => decapsulation(decapsulation_key@, ciphertext@) == Ok::<Seq<u8>, Error>(ss@),
                Err(e) => decapsulation(decapsulation_key@, ciphertext@) == Err::<Seq<u8>, Error>(e),
            },
    {
        let dk = Encoded::<DECAPSULATION_KEY_LEN>::decode(Field::DecapsulationKey, decapsulation_key)?;
        let ct = Encoded::<CIPHERTEXT_LEN>::decode(Field::Ciphertext, ciphertext)?;
        Ok(decapsulate(dk.as_slice(), ct.as_slice()))
    }
}

/// Key generation from a seed is a function of the seed: it succeeds exactly on 64-byte
/// seeds, and two calls handed the same seed give byte-identical key pairs.
pub proof fn lemma_seeded_keygen_deterministic(
    seed: Seq<u8>,
    first: Result<(Seq<u8>, Seq<u8>), Error>,
    second: Result<(Seq<u8>, Seq<u8>), Error>,
)
    requires
        first == seeded_key_pair(seed),
        second == seeded_key_pair(seed),
    ensures
        first == second,
        first is Ok <==> seed.len() == KEM_SEED_LEN,
{
}

/// Decoding the bytes of a valid key pair gives back the same key pair.
pub proof fn lemma_keypair_round_trip(ek: Seq<u8>, dk: Seq<u8>)
    requires
        ek.len() == ENCAPSULATION_KEY_LEN,
        dk.len() == DECAPSULATION_KEY_LEN,
    ensures
        decoded_pair(ek, dk) == Ok::<(Seq<u8>, Seq<u8>), Error>((ek, dk)),
{
}

} // verus!
