use pqc_kit::{Encoded, Error, Field, Sha3_512};

fn hex(bytes: &[u8]) -> String {
    bytes.iter().map(|b| format!("{:02x}", b)).collect()
}

#[test]
fn hash_of_empty_input_is_known_digest() {
    assert_eq!(
        hex(&Sha3_512::hash(b"")),
        "a69f73cca23a9ac5c8b567dc185a756e97c982164fe25859e0d1dcc1475c80a6\
         15b2123af1f5f94c11e3e9402c3ac558f500199d95b6d3e301758586281dcd26"
    );
}

#[test]
fn hash_of_abc_is_known_digest() {
    assert_eq!(
        hex(&Sha3_512::hash(b"abc")),
        "b751850b1a57168a5693cd924b6b096e08f621827444f70d884f5d0240d2712e\
         10e116e9192af3c91a7ec57647e3934057340b4cf408d5a56592f8274eec53f0"
    );
}

#[test]
fn hash_is_pure_and_always_64_bytes() {
    let data = vec![0x5au8; 1000];
    assert_eq!(Sha3_512::hash(&data), Sha3_512::hash(&data));
    assert_eq!(Sha3_512::hash(&data).len(), 64);
    assert_ne!(Sha3_512::hash(&data), Sha3_512::hash(&data[1..]));
}

#[test]
fn encoded_round_trips() {
    let bytes: Vec<u8> = (0..32u8).collect();
    let x = Encoded::<32>::decode(Field::Ciphertext, &bytes).unwrap();
    assert_eq!(x.encode(), bytes);
    let y = Encoded::<32>::decode(Field::Ciphertext, &x.encode()).unwrap();
    assert_eq!(y.encode(), x.encode());
    assert_eq!(y.as_slice(), &bytes[..]);
}

#[test]
fn encoded_rejects_other_lengths() {
    for len in [0usize, 31, 33] {
        assert_eq!(
            Encoded::<32>::decode(Field::Signature, &vec![0u8; len]).err(),
            Some(Error::Encoding { field: Field::Signature, expected: 32, actual: len })
        );
    }
}
