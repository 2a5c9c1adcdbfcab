use vstd::prelude::*;

verus! {

/// Relies on rand's `OsRng::try_fill_bytes` (rand_core): it fills the whole buffer from the
/// operating system's secure random source, or reports an error and fills nothing usable.
#[verifier::external_body]
pub(crate) fn random_bytes(n: usize) -> (r: Option<Vec<u8>>)
    ensures
        r matches Some(v) ==> v@.len() == n,
{
    let mut buf = vec![0u8; n];
    match rand::RngCore::try_fill_bytes(&mut rand::rngs::OsRng, &mut buf) {
        Ok(()) => Some(buf),
        Err(_) => None,
    }
}

} // verus!
