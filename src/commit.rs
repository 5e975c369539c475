//! Content-addressed commitments: a Keccak-256 digest over a domain-tagged preimage.
use vstd::prelude::*;

verus! {

/// A 32-byte content-addressed commitment.
#[derive(Clone, Debug, PartialEq, Eq, Hash)]
pub struct Commitment {
    pub bytes: Vec<u8>,
}

/// The Keccak-256 digest of a byte string.
pub uninterp spec fn keccak256_of(data: Seq<u8>) -> Seq<u8>;

/// Relies on sha3::Keccak256 (through `Digest::digest`): the 32-byte digest,
/// which depends on the input bytes alone.
#[verifier::external_body]
fn keccak256(data: &Vec<u8>) -> (r: Vec<u8>)
    ensures
        r@ == keccak256_of(data@),
        r@.len() == 32,
{
    <sha3::Keccak256 as sha3::Digest>::digest(data.as_slice()).to_vec()
}

/// Hashes a finished preimage into a commitment.
pub fn finalize(preimage: &Vec<u8>) -> (c: Commitment)
    ensures
        c.bytes@ == keccak256_of(preimage@),
        c.bytes@.len() == 32,
{
    Commitment { bytes: keccak256(preimage) }
}

} // verus!
