//! The Aleo account values that the client handles, held as their text:
//! addresses, keys, field elements and signatures, on the Testnet3 network.
use vstd::prelude::*;
use std::str::FromStr;
use snarkvm::prelude::{Address, Field, PrivateKey, Signature, Testnet3, ViewKey};

verus! {

#[verifier::external_type_specification]
#[verifier::external_body]
pub struct ExAnyhowError(anyhow::Error);

/// The text that reads as an Aleo address: 63 bytes of bech32m text with
/// the `aleo` prefix whose data is an account address.
pub uninterp spec fn aleo_address_valid(text: Seq<char>) -> bool;

/// `Address::<Testnet3>::from_str`, asked whether it reads the text: it
/// reads exactly the texts of `aleo_address_valid`, which are 63 bytes long
/// (the first check of the crate's parser).
#[verifier::external_body]
pub(crate) fn is_aleo_address(text: &str) -> (valid: bool)
    ensures
        valid == aleo_address_valid(text@),
        valid ==> vstd::utf8::encode_utf8(text@).len() == 63,
{
    match Address::<Testnet3>::from_str(text) {
        Ok(_) => true,
        Err(_) => false,
    }
}

/// The text that reads as a Testnet3 private key (`PrivateKey::from_str`):
/// base58 text of 43 bytes that start with the private-key prefix.
pub uninterp spec fn private_key_valid(text: Seq<char>) -> bool;

/// The text that reads as a Testnet3 field element (`Field::from_str`).
pub uninterp spec fn field_text_valid(text: Seq<char>) -> bool;

/// The most field elements that a message to be signed may have: Testnet3's
/// `MAX_DATA_SIZE_IN_FIELDS`, 128 KiB in fields of 252 data bits.
pub const MAX_SIGNED_FIELDS: usize = 4161;

/// Every text of the message reads as a field element.
pub open spec fn fields_valid(message: Seq<String>) -> bool {
    forall|i: int| 0 <= i < message.len() ==> #[trigger] field_text_valid(message[i]@)
}

/// The view key that a private key's text derives, as text, if the text is
/// a private key and the derivation succeeds.
pub uninterp spec fn derived_view_key(private_key: Seq<char>) -> Option<Seq<char>>;

/// The address that a private key's text derives, as text, if the text is a
/// private key and the derivation succeeds.
pub uninterp spec fn derived_address(private_key: Seq<char>) -> Option<Seq<char>>;

/// `ViewKey::<Testnet3>::try_from(&PrivateKey)`, on a private key given as
/// text and with the view key given as text; it fails where the text is no
/// private key or the derivation fails, as `derived_view_key` names. The
/// derivation itself does not fail, so it fails exactly where the text is
/// no private key: the compute key (compute_key/try_from.rs) takes two
/// scalar products and `hash_to_scalar_psd4`, which is Poseidon's
/// `hash_to_scalar`; Poseidon's `hash` always returns `Ok`
/// (poseidon/hash.rs), and `hash_to_scalar` hands `Scalar::from_bits_le`
/// exactly the scalar's data bits, a length for which it only builds the
/// big integer (which always succeeds) of a value below the modulus
/// (scalar from_bits.rs, biginteger bigint_256.rs).
#[verifier::external_body]
pub(crate) fn view_key_of(private_key: &str) -> (res: Result<String, anyhow::Error>)
    ensures
        res is Ok <==> private_key_valid(private_key@),
        res is Ok <==> derived_view_key(private_key@) is Some,
        res matches Ok(v) ==> v@ == derived_view_key(private_key@)->0,
{
    let private_key = PrivateKey::<Testnet3>::from_str(private_key)?;
    Ok(ViewKey::try_from(&private_key)?.to_string())
}

/// `Address::<Testnet3>::try_from(&PrivateKey)`, on a private key given as
/// text and with the address given as text; it fails where the text is no
/// private key or the derivation fails, as `derived_address` names. The
/// address it gives reads as an address (the address crate's `test_string`
/// reads back the text of every address it writes). The derivation itself
/// does not fail (the compute key as for `view_key_of`, then
/// `ComputeKey::to_address`), so it fails exactly where the text is no
/// private key.
#[verifier::external_body]
pub(crate) fn address_of(private_key: &str) -> (res: Result<String, anyhow::Error>)
    ensures
        res is Ok <==> private_key_valid(private_key@),
        res is Ok <==> derived_address(private_key@) is Some,
        res matches Ok(a) ==> a@ == derived_address(private_key@)->0,
        res matches Ok(a) ==> aleo_address_valid(a@),
{
    let private_key = PrivateKey::<Testnet3>::from_str(private_key)?;
    Ok(Address::try_from(&private_key)?.to_string())
}

/// `PrivateKey::<Testnet3>::new` with the thread's random generator, as
/// text. The key is random, and nothing is said of which it is; the crate's
/// test `test_string` shows that the text of a new key reads back as that
/// key.
#[verifier::external_body]
pub(crate) fn random_private_key() -> (res: Result<String, anyhow::Error>)
    ensures
        res matches Ok(k) ==> private_key_valid(k@),
{
    Ok(PrivateKey::<Testnet3>::new(&mut rand::thread_rng())?.to_string())
}

/// Whether a signature's text verifies for an address's text and a message
/// given as the texts of its field elements; false where a text does not
/// read as the value it stands for.
pub uninterp spec fn signature_verifies(address: Seq<char>, message: Seq<Seq<char>>, signature: Seq<
    char,
>) -> bool;

/// The texts of a list of strings.
pub open spec fn texts(message: Seq<String>) -> Seq<Seq<char>> {
    message.map_values(|s: String| s@)
}

/// `Signature::<Testnet3>::verify`, on texts: the address, the message's
/// field elements and the signature are read from their texts, and a text
/// that does not read gives `false`.
#[verifier::external_body]
pub(crate) fn verify_signature(address: &str, message: &[String], signature: &str) -> (valid: bool)
    ensures
        valid == signature_verifies(address@, texts(message@), signature@),
{
    let fields: Result<Vec<Field<Testnet3>>, _> = message.iter().map(|f| Field::from_str(f)).collect();
    match (Address::<Testnet3>::from_str(address), fields, Signature::<Testnet3>::from_str(signature)) {
        (Ok(address), Ok(fields), Ok(signature)) => signature.verify(&address, &fields),
        _ => false,
    }
}

/// `Signature::<Testnet3>::sign` with the thread's random generator, on
/// texts. It succeeds exactly when the private key and every field element
/// read from their texts and the message has at most `MAX_SIGNED_FIELDS`
/// elements: the crate refuses a longer message, and the rest of signing
/// does not fail (the compute key and address as for `address_of`, then
/// `hash_to_scalar_psd8`, Poseidon's `hash_to_scalar` as for `view_key_of`,
/// and scalar arithmetic; writing the signature as text cannot fail). The
/// signature is random; the crate's sign-and-verify tests show that it
/// verifies for the address that the private key derives.
#[verifier::external_body]
pub(crate) fn sign_message(private_key: &str, message: &[String]) -> (res: Result<String, anyhow::Error>)
    ensures
        res is Ok <==> (private_key_valid(private_key@) && message@.len() <= MAX_SIGNED_FIELDS && forall|
            i: int,
        | 0 <= i < message@.len() ==> #[trigger] field_text_valid(message@[i]@)),
        res matches Ok(signature) ==> derived_address(private_key@) matches Some(address)
            ==> signature_verifies(address, texts(message@), signature@),
{
    let private_key = PrivateKey::<Testnet3>::from_str(private_key)?;
    let fields: Vec<Field<Testnet3>> = message.iter().map(|f| Field::from_str(f)).collect::<Result<_, _>>()?;
    Ok(Signature::sign(&private_key, &fields, &mut rand::thread_rng())?.to_string())
}

} // verus!
