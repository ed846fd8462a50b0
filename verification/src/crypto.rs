use sha2::Digest;
use vstd::prelude::*;

verus! {

/// The SHA-256 digest of a byte string.
pub uninterp spec fn sha256_spec(data: Seq<u8>) -> Seq<u8>;

/// Calls `sha2::Sha256::digest` on `data` and returns the 32 bytes of the
/// digest. Trusted: the digest is taken to be `sha256_spec(data@)`, a
/// function of the input bytes alone; nothing else is claimed of it.
#[verifier::external_body]
pub(crate) fn sha256(data: &[u8]) -> (digest: [u8; 32])
    ensures
        digest@ == sha256_spec(data@),
{
    sha2::Sha256::digest(data).into()
}

} // verus!
