//! COSE keys, decoded by `coset`.

use coset::{Algorithm, CborSerializable, CoseError, CoseKey};
use coset::iana::EnumI64;
use vstd::prelude::*;

verus! {

/// The algorithm that a COSE key is restricted to.
#[derive(Clone, Copy, Debug, PartialEq, Eq, Structural)]
pub enum CoseAlgorithm {
    /// An algorithm of the IANA registry, by its number there.
    Assigned(i64),
    /// An algorithm of the range for private use, by its number.
    PrivateUse(i64),
    /// An algorithm that is given by a text.
    Text,
}

/// A failure of `coset`, opaque to the verifier.
#[verifier::external_type_specification]
#[verifier::external_body]
pub struct ExCoseError(CoseError);

/// The `alg` field of the COSE key that `coset` decodes from `bytes`, or nothing
/// where it decodes no key.
pub uninterp spec fn cose_key_alg(bytes: Seq<u8>) -> Option<Option<CoseAlgorithm>>;

/// Calls `CoseKey::from_slice` and hands out the `alg` field of the key, which
/// depends on the bytes alone.
#[verifier::external_body]
pub(crate) fn cose_key_algorithm(slice: &[u8]) -> (r: Result<Option<CoseAlgorithm>, CoseError>)
    ensures
        match r {
            Ok(alg) => cose_key_alg(slice@) == Some(alg),
            Err(_) => cose_key_alg(slice@) is None,
        },
{
    let key = CoseKey::from_slice(slice)?;
    Ok(match key.alg {
        None => None,
        Some(Algorithm::Assigned(a)) => Some(CoseAlgorithm::Assigned(a.to_i64())),
        Some(Algorithm::PrivateUse(i)) => Some(CoseAlgorithm::PrivateUse(i)),
        Some(Algorithm::Text(_)) => Some(CoseAlgorithm::Text),
    })
}

} // verus!
