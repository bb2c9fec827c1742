use vstd::prelude::*;

use crate::error::Error;
use crate::tx::TimeOracle;

verus! {

use vstd::bytes::spec_u128_from_le_bytes;
use vstd::bytes::spec_u32_to_le_bytes;
use vstd::bytes::spec_u64_from_le_bytes;
use vstd::bytes::u128_from_le_bytes;
use vstd::bytes::u32_to_le_bytes;
use vstd::bytes::u64_from_le_bytes;
use vstd::slice::slice_subrange;
use vstd::slice::slice_to_vec;

/// Byte length of the oracle record's identity field.
pub const ORACLE_ID_LEN: usize = 32;

/// Byte length of the serialized oracle record: the 32-byte identity
/// followed by the 8-byte little-endian millisecond timestamp.
pub const TIME_ORACLE_DATA_LEN: usize = 40;

/// Byte length of a token cell's amount payload: one little-endian u128.
/// Amounts are decoded little-endian throughout; that order is the
/// compatibility-critical canonical choice of this library.
pub const UDT_AMOUNT_LEN: usize = 16;

/// Copies a byte vector element by element.
pub(crate) fn copy_bytes(src: &Vec<u8>) -> (r: Vec<u8>)
    ensures
        r@ == src@,
{
    let mut r: Vec<u8> = Vec::new();
    let mut i: usize = 0;
    while i < src.len()
        invariant
            i <= src@.len(),
            r@ == src@.subrange(0, i as int),
        decreases src@.len() - i,
    {
        r.push(src[i]);
        proof {
            assert(r@ =~= src@.subrange(0, i as int + 1));
        }
        i = i + 1;
    }
    proof {
        assert(r@ =~= src@);
    }
    r
}

/// Byte-for-byte equality of two byte vectors.
pub(crate) fn bytes_eq(a: &Vec<u8>, b: &Vec<u8>) -> (r: bool)
    ensures
        r <==> a@ == b@,
{
    if a.len() != b.len() {
        return false;
    }
    let mut i: usize = 0;
    while i < a.len()
        invariant
            a@.len() == b@.len(),
            i <= a@.len(),
            forall|j: int| 0 <= j < i ==> a@[j] == b@[j],
        decreases a@.len() - i,
    {
        if a[i] != b[i] {
            return false;
        }
        i = i + 1;
    }
    proof {
        assert(a@ =~= b@);
    }
    true
}

/// Decodes an oracle record from a cell's data payload: the first 32 bytes
/// are the identity, the next 8 the little-endian timestamp. A payload
/// shorter than the fixed layout is malformed record data.
pub fn decode_time_oracle(data: &Vec<u8>) -> (r: Result<TimeOracle, Error>)
    ensures
        data@.len() >= TIME_ORACLE_DATA_LEN ==> (r matches Ok(rec)
            && rec.oracle_id@ == data@.subrange(0, ORACLE_ID_LEN as int)
            && rec.last_updated_timestamp == spec_u64_from_le_bytes(
                data@.subrange(ORACLE_ID_LEN as int, TIME_ORACLE_DATA_LEN as int),
            )),
        data@.len() < TIME_ORACLE_DATA_LEN ==> r == Err::<TimeOracle, Error>(
            Error::InvalidTimeOracleData,
        ),
{
    if data.len() < TIME_ORACLE_DATA_LEN {
        return Err(Error::InvalidTimeOracleData);
    }
    let oracle_id = slice_to_vec(slice_subrange(data.as_slice(), 0, ORACLE_ID_LEN));
    let ts_bytes = slice_subrange(data.as_slice(), ORACLE_ID_LEN, TIME_ORACLE_DATA_LEN);
    let last_updated_timestamp = u64_from_le_bytes(ts_bytes);
    Ok(TimeOracle { oracle_id, last_updated_timestamp })
}

/// Decodes a token amount from a token cell's data payload: one 16-byte
/// little-endian unsigned integer. A shorter payload is an encoding error.
pub fn decode_udt_amount(data: &Vec<u8>) -> (r: Result<u128, Error>)
    ensures
        data@.len() >= UDT_AMOUNT_LEN ==> r == Ok::<u128, Error>(
            spec_u128_from_le_bytes(data@.subrange(0, UDT_AMOUNT_LEN as int)),
        ),
        data@.len() < UDT_AMOUNT_LEN ==> r == Err::<u128, Error>(Error::Encoding),
{
    if data.len() < UDT_AMOUNT_LEN {
        return Err(Error::Encoding);
    }
    let amount_bytes = slice_subrange(data.as_slice(), 0, UDT_AMOUNT_LEN);
    Ok(u128_from_le_bytes(amount_bytes))
}

/// Byte-exact serialization of a script as the ledger's three-field binary
/// table: a full-size word, one offset word per field (the header is 16
/// bytes, so the fields start at 16, 48 and 49), the 32-byte code hash, the
/// one-byte hash type, and the args as a length-prefixed byte vector. Every
/// word is 32-bit little-endian; the serialized form is 53 bytes plus the
/// args.
pub open spec fn spec_serialize_script(code_hash: Seq<u8>, hash_type: u8, args: Seq<u8>) -> Seq<
    u8,
>
    recommends
        code_hash.len() == 32,
{
    spec_u32_to_le_bytes((53 + args.len()) as u32) + spec_u32_to_le_bytes(16)
        + spec_u32_to_le_bytes(48) + spec_u32_to_le_bytes(49) + code_hash + seq![hash_type]
        + spec_u32_to_le_bytes(args.len() as u32) + args
}

pub fn serialize_script(code_hash: &Vec<u8>, hash_type: u8, args: &Vec<u8>) -> (r: Vec<u8>)
    requires
        code_hash@.len() == 32,
        args@.len() + 53 <= u32::MAX,
    ensures
        r@ == spec_serialize_script(code_hash@, hash_type, args@),
{
    let mut r = u32_to_le_bytes(args.len() as u32 + 53);
    let mut part = u32_to_le_bytes(16);
    r.append(&mut part);
    let mut part = u32_to_le_bytes(48);
    r.append(&mut part);
    let mut part = u32_to_le_bytes(49);
    r.append(&mut part);
    let mut ch = copy_bytes(code_hash);
    r.append(&mut ch);
    r.push(hash_type);
    let mut len_part = u32_to_le_bytes(args.len() as u32);
    r.append(&mut len_part);
    let mut a = copy_bytes(args);
    r.append(&mut a);
    proof {
        assert(r@ =~= spec_serialize_script(code_hash@, hash_type, args@));
    }
    r
}

} // verus!
