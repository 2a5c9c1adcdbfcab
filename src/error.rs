use vstd::prelude::*;

verus! {

/// The fixed-size quantities whose encodings are checked before use.
#[derive(Clone, Copy, Debug, PartialEq, Eq, Structural)]
pub enum Field {
    VerifyingKey,
    SigningKey,
    Signature,
    EncapsulationKey,
    DecapsulationKey,
    Ciphertext,
}

/// Every way an operation of this library can fail.
#[derive(Clone, Copy, Debug, PartialEq, Eq, Structural)]
pub enum Error {
    /// A seed was given whose length is not the one the algorithm takes.
    SeedLength { expected: usize, actual: usize },
    /// A key, signature or ciphertext buffer has the wrong length.
    Encoding { field: Field, expected: usize, actual: usize },
    /// Signature bytes of the right length that hold no valid signature.
    SignatureDecode,
    /// Signing-key bytes of the right length whose secret vectors hold a coefficient out of
    /// range.
    SigningKeyDecode,
    /// The signing algorithm refused its input or found no randomness.
    Signing,
    /// The system's secure random source failed.
    Randomness,
}

} // verus!
