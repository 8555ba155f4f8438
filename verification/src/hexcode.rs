//! Lower-case hexadecimal text as used for job ids, nonces and commitments
//! on the stratum wire, and the job-id encoding of an epoch number.
use vstd::prelude::*;
use vstd::bytes::*;
use vstd::string::StringSliceAdditionalSpecFns;

verus! {

/// The lower-case hexadecimal digit for a nibble.
pub open spec fn hex_digit(n: int) -> char {
    if n < 10 {
        (48 + n) as char
    } else {
        (87 + n) as char
    }
}

/// Lower-case hexadecimal text of a byte string: two digits per byte,
/// high nibble first.
pub open spec fn hex_text(bytes: Seq<u8>) -> Seq<char> {
    Seq::new(
        2 * bytes.len(),
        |i: int|
            if i % 2 == 0 {
                hex_digit(bytes[i / 2] as int / 16)
            } else {
                hex_digit(bytes[i / 2] as int % 16)
            },
    )
}

/// The value of one hexadecimal digit byte, in either case.
pub open spec fn hex_value(c: u8) -> Option<int> {
    if 48 <= c <= 57 {
        Some(c - 48)
    } else if 65 <= c <= 70 {
        Some(c - 55)
    } else if 97 <= c <= 102 {
        Some(c - 87)
    } else {
        None
    }
}

/// A byte string that is hexadecimal text: of even length, every byte a
/// hexadecimal digit.
pub open spec fn is_hex_text(text: Seq<u8>) -> bool {
    &&& text.len() % 2 == 0
    &&& forall|i: int| 0 <= i < text.len() ==> (#[trigger] hex_value(text[i])) is Some
}

/// The bytes that hexadecimal text stands for.
pub open spec fn hex_bytes(text: Seq<u8>) -> Seq<u8> {
    Seq::new(
        text.len() / 2,
        |i: int| (hex_value(text[2 * i])->0 * 16 + hex_value(text[2 * i + 1])->0) as u8,
    )
}

#[verifier::external_type_specification]
#[verifier::external_body]
pub struct ExFromHexError(hex::FromHexError);

/// `hex::encode`: the lower-case hexadecimal text of `data`, two digits per
/// byte, high nibble first (the crate's `BytesToHexChars` over
/// `HEX_CHARS_LOWER`).
#[verifier::external_body]
pub(crate) fn hex_encode(data: &[u8]) -> (text: String)
    ensures
        text@ == hex_text(data@),
{
    hex::encode(data)
}

/// `hex::decode`: reads the UTF-8 bytes of `text` in pairs; fails on an odd
/// number of bytes or on a byte that is no hexadecimal digit (either case),
/// and otherwise gives one byte per pair, high nibble first.
#[verifier::external_body]
pub(crate) fn hex_decode(text: &str) -> (res: Result<Vec<u8>, hex::FromHexError>)
    ensures
        res is Ok <==> is_hex_text(text.spec_bytes()),
        res matches Ok(bytes) ==> bytes@ == hex_bytes(text.spec_bytes()),
{
    hex::decode(text)
}

/// The bytes that hexadecimal text stands for, if it is hexadecimal text
/// (an epoch challenge, for one).
pub fn decode_hex(text: &str) -> (bytes: Option<Vec<u8>>)
    ensures
        bytes is Some <==> is_hex_text(text.spec_bytes()),
        bytes matches Some(b) ==> b@ == hex_bytes(text.spec_bytes()),
{
    match hex_decode(text) {
        Ok(bytes) => Some(bytes),
        Err(_) => None,
    }
}

/// Why a job id does not name an epoch.
#[derive(Debug, Clone, Copy, PartialEq, Eq, Structural)]
pub enum JobIdError {
    /// The job id is not hexadecimal text.
    NotHex,
    /// The job id stands for this many bytes, where eight are needed.
    WrongLength(usize),
}

/// The job id of an epoch: the hexadecimal text of its eight little-endian
/// bytes.
pub open spec fn job_id_text(epoch: u64) -> Seq<char> {
    hex_text(spec_u64_to_le_bytes(epoch))
}

/// What a job id decodes to: the epoch whose eight little-endian bytes the
/// hexadecimal text stands for.
pub open spec fn job_id_meaning(text: Seq<u8>) -> Result<u64, JobIdError> {
    if !is_hex_text(text) {
        Err(JobIdError::NotHex)
    } else if hex_bytes(text).len() != 8 {
        Err(JobIdError::WrongLength(hex_bytes(text).len() as usize))
    } else {
        Ok(spec_u64_from_le_bytes(hex_bytes(text)))
    }
}

/// The job id that names `epoch` on the wire.
pub fn encode_job_id(epoch: u64) -> (text: String)
    ensures
        text@ == job_id_text(epoch),
{
    let bytes = u64_to_le_bytes(epoch);
    hex_encode(bytes.as_slice())
}

/// Reads the epoch out of a job id.
pub fn decode_job_id(text: &str) -> (res: Result<u64, JobIdError>)
    ensures
        res == job_id_meaning(text.spec_bytes()),
{
    match hex_decode(text) {
        Err(_) => Err(JobIdError::NotHex),
        Ok(bytes) => {
            if bytes.len() != 8 {
                Err(JobIdError::WrongLength(bytes.len()))
            } else {
                Ok(u64_from_le_bytes(bytes.as_slice()))
            }
        },
    }
}

/// Hexadecimal text is ASCII, so its bytes are its characters.
pub proof fn lemma_hex_text_bytes(bytes: Seq<u8>)
    ensures
        vstd::utf8::encode_utf8(hex_text(bytes)).len() == 2 * bytes.len(),
        forall|i: int|
            0 <= i < 2 * bytes.len() ==> #[trigger] vstd::utf8::encode_utf8(hex_text(bytes))[i]
                == hex_text(bytes)[i] as u8,
{
    let t = hex_text(bytes);
    assert forall|i: int| 0 <= i < t.len() implies '\0' <= #[trigger] t[i] <= '\u{7f}' by {
        let b: int = bytes[i / 2] as int;
        assert(0 <= b / 16 < 16);
        assert(0 <= b % 16 < 16);
    }
    vstd::utf8::is_ascii_chars_encode_utf8(t);
}

/// Decoding hexadecimal text gives back the bytes that were encoded.
pub proof fn lemma_hex_round_trip(bytes: Seq<u8>)
    ensures
        is_hex_text(vstd::utf8::encode_utf8(hex_text(bytes))),
        hex_bytes(vstd::utf8::encode_utf8(hex_text(bytes))) == bytes,
{
    lemma_hex_text_bytes(bytes);
    let t = hex_text(bytes);
    let e = vstd::utf8::encode_utf8(t);
    assert forall|i: int| 0 <= i < e.len() implies (#[trigger] hex_value(e[i])) is Some by {
        let b: int = bytes[i / 2] as int;
        assert(e[i] == t[i] as u8);
    }
    assert forall|k: int| 0 <= k < bytes.len() implies #[trigger] hex_bytes(e)[k] == bytes[k] by {
        let b: int = bytes[k] as int;
        assert(e[2 * k] == t[2 * k] as u8);
        assert(e[2 * k + 1] == t[2 * k + 1] as u8);
        assert((2 * k) % 2 == 0);
        assert((2 * k + 1) % 2 == 1);
        assert((2 * k) / 2 == k);
        assert((2 * k + 1) / 2 == k);
        assert(hex_value(e[2 * k]) == Some(b / 16));
        assert(hex_value(e[2 * k + 1]) == Some(b % 16));
        assert((b / 16) * 16 + b % 16 == b);
    }
    assert(hex_bytes(e) =~= bytes);
}

/// A job id made for an epoch is read back as that same epoch: what a worker
/// submits names the epoch that the pool's notification named.
pub proof fn law_job_id_round_trip(epoch: u64)
    ensures
        job_id_meaning(vstd::utf8::encode_utf8(job_id_text(epoch))) == Ok::<u64, JobIdError>(epoch),
{
    lemma_auto_spec_u64_to_from_le_bytes();
    let b = spec_u64_to_le_bytes(epoch);
    lemma_hex_round_trip(b);
}

} // verus!
