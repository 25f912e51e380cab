use crate::types::AccountId;
use vstd::prelude::*;

verus! {

/// The BLAKE2b-256 digest of a byte string.
pub uninterp spec fn blake2_256_of(data: Seq<u8>) -> Seq<u8>;

/// Relies on sp_core's `Blake2Hasher::hash`, which returns the BLAKE2b-256
/// digest of its input as a 32-byte `H256`; the digest depends on the bytes alone.
#[verifier::external_body]
fn blake2_256(data: &[u8]) -> (r: [u8; 32])
    ensures
        r@ == blake2_256_of(data@),
{
    <sp_core::Blake2Hasher as sp_core::Hasher>::hash(data).0
}

/// The identifier of the account whose certificate is `cert`.
pub fn account_id_of(cert: &Vec<u8>) -> (r: AccountId)
    ensures
        r@ == blake2_256_of(cert@),
{
    AccountId { bytes: blake2_256(cert.as_slice()) }
}

} // verus!
