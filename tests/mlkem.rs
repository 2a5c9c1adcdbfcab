use ml_kem::{EncodedSizeUser, KemCore, MlKem1024, B32};
use pqc_kit::{Error, Field, MlKem};

fn seed() -> Vec<u8> {
    (0u8..64).collect()
}

#[test]
fn kem_keygen_with_seed_is_deterministic() {
    let a = MlKem::keygen(Some(seed())).unwrap();
    let b = MlKem::keygen(Some(seed())).unwrap();
    assert_eq!(a.encapsulation_key(), b.encapsulation_key());
    assert_eq!(a.decapsulation_key(), b.decapsulation_key());
    assert_eq!(a.encapsulation_key().len(), 1568);
    assert_eq!(a.decapsulation_key().len(), 3168);
}

#[test]
fn kem_keygen_splits_seed_into_d_and_z() {
    let s = seed();
    let ours = MlKem::keygen(Some(s.clone())).unwrap();
    let d = B32::try_from(&s[0..32]).unwrap();
    let z = B32::try_from(&s[32..64]).unwrap();
    let (dk, ek) = MlKem1024::generate_deterministic(&d, &z);
    assert_eq!(ours.encapsulation_key(), ek.as_bytes().to_vec());
    assert_eq!(ours.decapsulation_key(), dk.as_bytes().to_vec());
    // z is the tail of the decapsulation key
    assert_eq!(&ours.decapsulation_key()[3136..], &s[32..64]);
}

#[test]
fn kem_keygen_without_seed_differs() {
    let a = MlKem::keygen(None).unwrap();
    let b = MlKem::keygen(None).unwrap();
    assert_ne!(a.encapsulation_key(), b.encapsulation_key());
    assert_ne!(a.decapsulation_key(), b.decapsulation_key());
}

#[test]
fn kem_keygen_seed_of_63_or_65_bytes_fails() {
    for len in [0usize, 32, 63, 65] {
        let r = MlKem::keygen(Some(vec![0u8; len]));
        assert_eq!(r.err(), Some(Error::SeedLength { expected: 64, actual: len }));
    }
}

#[test]
fn encaps_then_decaps_agree() {
    let kp = MlKem::keygen(Some(seed())).unwrap();
    let enc = MlKem::encaps(&kp.encapsulation_key()).unwrap();
    assert_eq!(enc.ciphertext().len(), 1568);
    assert_eq!(enc.shared_secret().len(), 32);
    let ss = MlKem::decaps(&kp.decapsulation_key(), &enc.ciphertext()).unwrap();
    assert_eq!(ss, enc.shared_secret());
}

#[test]
fn encaps_draws_fresh_randomness() {
    let kp = MlKem::keygen(Some(seed())).unwrap();
    let a = MlKem::encaps(&kp.encapsulation_key()).unwrap();
    let b = MlKem::encaps(&kp.encapsulation_key()).unwrap();
    assert_ne!(a.ciphertext(), b.ciphertext());
    assert_ne!(a.shared_secret(), b.shared_secret());
}

#[test]
fn encaps_internal_is_deterministic() {
    let kp = MlKem::keygen(Some(seed())).unwrap();
    let m = vec![9u8; 32];
    let a = MlKem::encaps_internal(&kp.encapsulation_key(), &m).unwrap();
    let b = MlKem::encaps_internal(&kp.encapsulation_key(), &m).unwrap();
    assert_eq!(a.ciphertext(), b.ciphertext());
    assert_eq!(a.shared_secret(), b.shared_secret());
    assert_ne!(a.shared_secret(), m);
    let ss = MlKem::decaps(&kp.decapsulation_key(), &a.ciphertext()).unwrap();
    assert_eq!(ss, a.shared_secret());
}

#[test]
fn encaps_internal_randomness_of_wrong_length_fails() {
    let kp = MlKem::keygen(Some(seed())).unwrap();
    assert_eq!(
        MlKem::encaps_internal(&kp.encapsulation_key(), &[0u8; 31]).err(),
        Some(Error::SeedLength { expected: 32, actual: 31 })
    );
}

#[test]
fn decaps_of_foreign_ciphertext_gives_implicit_rejection() {
    let kp = MlKem::keygen(Some(seed())).unwrap();
    let other = MlKem::keygen(Some(vec![5u8; 64])).unwrap();
    let enc = MlKem::encaps(&other.encapsulation_key()).unwrap();
    let ss = MlKem::decaps(&kp.decapsulation_key(), &enc.ciphertext()).unwrap();
    assert_eq!(ss.len(), 32);
    assert_ne!(ss, enc.shared_secret());
    let again = MlKem::decaps(&kp.decapsulation_key(), &enc.ciphertext()).unwrap();
    assert_eq!(ss, again);
}

#[test]
fn encaps_key_of_wrong_length_fails() {
    assert_eq!(
        MlKem::encaps(&[0u8; 1567]).err(),
        Some(Error::Encoding { field: Field::EncapsulationKey, expected: 1568, actual: 1567 })
    );
}

#[test]
fn decaps_inputs_of_wrong_length_fail() {
    let kp = MlKem::keygen(Some(seed())).unwrap();
    assert_eq!(
        MlKem::decaps(&[0u8; 3167], &[0u8; 1568]),
        Err(Error::Encoding { field: Field::DecapsulationKey, expected: 3168, actual: 3167 })
    );
    assert_eq!(
        MlKem::decaps(&kp.decapsulation_key(), &[0u8; 1569]),
        Err(Error::Encoding { field: Field::Ciphertext, expected: 1568, actual: 1569 })
    );
}

#[test]
fn decoded_kem_key_pair_round_trips() {
    let kp = MlKem::keygen(Some(seed())).unwrap();
    let held = MlKem::decode(&kp.encapsulation_key(), &kp.decapsulation_key()).unwrap();
    assert_eq!(held.encapsulation_key(), kp.encapsulation_key());
    assert_eq!(held.decapsulation_key(), kp.decapsulation_key());
    let fresh = MlKem::new().unwrap();
    let again = MlKem::decode(&fresh.encapsulation_key(), &fresh.decapsulation_key()).unwrap();
    assert_eq!(again.decapsulation_key(), fresh.decapsulation_key());
    assert_eq!(
        MlKem::decode(&[0u8; 3], &kp.decapsulation_key()).err(),
        Some(Error::Encoding { field: Field::EncapsulationKey, expected: 1568, actual: 3 })
    );
    assert_eq!(
        MlKem::decode(&kp.encapsulation_key(), &[0u8; 3]).err(),
        Some(Error::Encoding { field: Field::DecapsulationKey, expected: 3168, actual: 3 })
    );
}
