use sha3::Digest;
use vstd::prelude::*;
use vstd::string::*;
use vstd::utf8::*;

use crate::addr::Addr;

verus! {

/// The SHA3-256 digest of a byte sequence, as computed by the `sha3` crate.
/// A pure function of its input alone: the same bytes give the same digest on
/// every machine.
pub uninterp spec fn sha3_256_of(input: Seq<u8>) -> Seq<u8>;

/// Relies on `sha3::Sha3_256` through the `Digest` trait: the one-shot
/// `digest` call returns the SHA3-256 digest of the input, 32 bytes long.
#[verifier::external_body]
fn sha3_256(input: &Vec<u8>) -> (r: Vec<u8>)
    ensures
        r@ == sha3_256_of(input@),
        r@.len() == 32,
{
    sha3::Sha3_256::digest(input.as_slice()).to_vec()
}

/// The storage key of the position held by `trader` on `vamm`: the SHA3-256
/// digest of the UTF-8 bytes of the vamm address followed by the UTF-8 bytes
/// of the trader address.  Fixed-size and one-way by design: positions cannot
/// be enumerated or range-scanned by address.
pub open spec fn spec_position_key(vamm: Seq<char>, trader: Seq<char>) -> Seq<u8> {
    sha3_256_of(encode_utf8(vamm) + encode_utf8(trader))
}

/// Derives the storage key for the position of `trader` on `vamm`.
pub fn position_key(vamm: &Addr, trader: &Addr) -> (r: Vec<u8>)
    ensures
        r@ == spec_position_key(vamm@, trader@),
        r@.len() == 32,
{
    let mut bytes = vamm.as_str().as_bytes_vec();
    let mut tail = trader.as_str().as_bytes_vec();
    bytes.append(&mut tail);
    sha3_256(&bytes)
}

} // verus!
