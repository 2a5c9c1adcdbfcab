//! Post-quantum signatures (ML-DSA-87), key encapsulation (ML-KEM-1024) and
//! SHA3-512 hashing behind byte-buffer interfaces with exact length checks.

pub mod codec;
pub mod error;
pub mod hash;
pub mod mldsa;
pub mod mlkem;
mod random;

pub use codec::Encoded;
pub use error::{Error, Field};
pub use hash::Sha3_512;
pub use mldsa::{MlDsa, MlDsaKeypair};
pub use mlkem::{MlKem, MlKemEncapsulation, MlKemKeypair};
