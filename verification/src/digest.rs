//! SHA-256 digests, computed by the `sha2` crate.
use vstd::prelude::*;

verus! {

/// The SHA-256 digest of `data`, as the `sha2` crate computes it.
pub uninterp spec fn sha256(data: Seq<u8>) -> Seq<u8>;

/// Computes the SHA-256 digest of `data`.
///
/// Calls `sha2::Sha256::digest`. The contract claims that the result is the
/// digest named `sha256` of the input and that it is 32 bytes long (the
/// output size of `Sha256`); nothing is claimed about how the digest is
/// computed.
#[verifier::external_body]
pub(crate) fn sha256_digest(data: &[u8]) -> (digest: Vec<u8>)
    ensures
        digest@ == sha256(data@),
        digest@.len() == 32,
{
    <sha2::Sha256 as sha2::Digest>::digest(data).to_vec()
}

} // verus!
