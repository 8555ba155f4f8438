use wusheng_pool_client::hexcode::{decode_hex, decode_job_id, encode_job_id, JobIdError};

#[test]
fn job_id_is_little_endian_hex() {
    assert_eq!(encode_job_id(1), "0100000000000000");
    assert_eq!(encode_job_id(0x0102030405060708), "0807060504030201");
    assert_eq!(encode_job_id(u64::MAX), "ffffffffffffffff");
}

#[test]
fn job_id_round_trip() {
    for epoch in [0u64, 1, 255, 256, 123456789, u64::MAX] {
        assert_eq!(decode_job_id(&encode_job_id(epoch)), Ok(epoch));
    }
}

#[test]
fn job_id_errors() {
    assert_eq!(decode_job_id("zz00000000000000"), Err(JobIdError::NotHex));
    assert_eq!(decode_job_id("abc"), Err(JobIdError::NotHex));
    assert_eq!(decode_job_id("0102"), Err(JobIdError::WrongLength(2)));
    assert_eq!(decode_job_id(""), Err(JobIdError::WrongLength(0)));
}

#[test]
fn job_id_accepts_upper_case() {
    assert_eq!(decode_job_id("FF00000000000000"), Ok(255));
}

#[test]
fn job_id_rejects_odd_length_and_non_ascii() {
    assert_eq!(decode_job_id("b"), Err(JobIdError::NotHex));
    assert_eq!(decode_job_id("é0"), Err(JobIdError::NotHex));
    assert_eq!(decode_job_id("0g00000000000000"), Err(JobIdError::NotHex));
}

#[test]
fn hex_text_decodes_to_its_bytes() {
    assert_eq!(decode_hex("BEef000a"), Some(vec![0xbe, 0xef, 0x00, 0x0a]));
    assert_eq!(decode_hex(""), Some(vec![]));
    assert_eq!(decode_hex("b"), None);
    assert_eq!(decode_hex("xy"), None);
}
