//! The digest of a program image, reported with each run so that a result
//! can be tied to the exact binary that produced it.

use crate::hexcodec::hex_bytes;
use crate::hexcodec::to_hex_lower;
use sha2::Digest;
use vstd::prelude::*;

verus! {

/// The SHA-256 digest of a byte string: a function of the input bytes
/// alone, the same in every process and on every machine.
pub uninterp spec fn sha256_of(data: Seq<u8>) -> Seq<u8>;

/// Relies on `sha2::Sha256::digest`: the digest depends on the input bytes
/// alone and is 32 bytes long.
#[verifier::external_body]
fn sha256_digest(data: &Vec<u8>) -> (r: Vec<u8>)
    ensures
        r@ == sha256_of(data@),
        r@.len() == 32,
{
    sha2::Sha256::digest(data.as_slice()).to_vec()
}

/// The lower-case hexadecimal rendering of an image's SHA-256 digest, as
/// the orchestrator reports it.
pub fn image_digest_hex(image: &Vec<u8>) -> (out: Vec<u8>)
    ensures
        out@ == hex_bytes(sha256_of(image@)),
        out@.len() == 64,
{
    let digest = sha256_digest(image);
    to_hex_lower(&digest)
}

} // verus!
