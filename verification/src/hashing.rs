use vstd::prelude::*;

verus! {

/// The 32-byte blake2b digest (personalized for this chain) of a byte
/// string. The digest has no short closed form, so it is only named here;
/// the trusted wrapper below ties the name to the outside implementation.
pub uninterp spec fn blake2b256_of(data: Seq<u8>) -> Seq<u8>;

/// Relies on ckb_hash::blake2b_256: the 32-byte blake2b digest of the input,
/// personalized with "ckb-default-hash", a function of the input bytes alone.
#[verifier::external_body]
pub(crate) fn blake2b_256(data: &Vec<u8>) -> (r: Vec<u8>)
    ensures
        r@ == blake2b256_of(data@),
        r@.len() == 32,
{
    ckb_hash::blake2b_256(data.as_slice()).to_vec()
}

} // verus!
