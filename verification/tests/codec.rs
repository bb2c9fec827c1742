use time_oracle::codec::decode_time_oracle;
use time_oracle::codec::decode_udt_amount;
use time_oracle::codec::serialize_script;
use time_oracle::error::Error;

#[test]
fn decode_time_oracle_reads_id_and_timestamp() {
    let mut data = vec![0x5Au8; 32];
    data.extend_from_slice(&61000u64.to_le_bytes());
    let rec = decode_time_oracle(&data).unwrap();
    assert_eq!(rec.oracle_id, vec![0x5Au8; 32]);
    assert_eq!(rec.last_updated_timestamp, 61000);
}

#[test]
fn decode_time_oracle_ignores_trailing_bytes() {
    let mut data = vec![0x00u8; 32];
    data.extend_from_slice(&7u64.to_le_bytes());
    data.extend_from_slice(&[0xFF, 0xFF]);
    let rec = decode_time_oracle(&data).unwrap();
    assert_eq!(rec.last_updated_timestamp, 7);
}

#[test]
fn decode_time_oracle_rejects_short_payload() {
    assert!(matches!(
        decode_time_oracle(&vec![0u8; 39]),
        Err(Error::InvalidTimeOracleData)
    ));
    assert!(matches!(
        decode_time_oracle(&vec![]),
        Err(Error::InvalidTimeOracleData)
    ));
}

#[test]
fn decode_udt_amount_is_little_endian() {
    let data = 0x0102030405060708090A0B0C0D0E0F10u128.to_le_bytes().to_vec();
    assert_eq!(
        decode_udt_amount(&data),
        Ok(0x0102030405060708090A0B0C0D0E0F10)
    );
    let mut one = vec![1u8];
    one.extend_from_slice(&[0u8; 15]);
    assert_eq!(decode_udt_amount(&one), Ok(1));
}

#[test]
fn decode_udt_amount_rejects_short_payload() {
    assert_eq!(decode_udt_amount(&vec![0u8; 15]), Err(Error::Encoding));
}

#[test]
fn serialize_script_exact_layout() {
    let code_hash = vec![0x11u8; 32];
    let args = vec![0xAB, 0xCD];
    let out = serialize_script(&code_hash, 1, &args);
    let mut expected: Vec<u8> = Vec::new();
    expected.extend_from_slice(&55u32.to_le_bytes());
    expected.extend_from_slice(&16u32.to_le_bytes());
    expected.extend_from_slice(&48u32.to_le_bytes());
    expected.extend_from_slice(&49u32.to_le_bytes());
    expected.extend_from_slice(&[0x11u8; 32]);
    expected.push(1);
    expected.extend_from_slice(&2u32.to_le_bytes());
    expected.extend_from_slice(&[0xAB, 0xCD]);
    assert_eq!(out, expected);
}

#[test]
fn serialize_script_empty_args() {
    let code_hash = vec![0x22u8; 32];
    let out = serialize_script(&code_hash, 1, &vec![]);
    assert_eq!(out.len(), 53);
    assert_eq!(&out[0..4], &53u32.to_le_bytes());
    assert_eq!(&out[48..49], &[1u8]);
    assert_eq!(&out[49..53], &0u32.to_le_bytes());
}
